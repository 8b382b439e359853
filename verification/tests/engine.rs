//! Scenario and shape-table tests for the move-legality engine.

use real_time_chess::board::{Board, BoardPiece, ChessPiece, PlayerColor};
use real_time_chess::geometry::{File, Location, Rank};
use real_time_chess::protocol::ServerInGameMessage;
use real_time_chess::room::Room;
use real_time_chess::session::Player;

fn white_player() -> Player {
    Player { id: 1, color: PlayerColor::White, cooldown: 5000 }
}

fn black_player() -> Player {
    Player { id: 2, color: PlayerColor::Black, cooldown: 5000 }
}

fn piece(kind: ChessPiece, color: PlayerColor) -> BoardPiece {
    BoardPiece { piece: kind, color, last_moved: 0, cooldown: 0 }
}

/// A room over an empty board with the given pieces placed, ready to move.
fn room_with(pieces: &[(Location, BoardPiece)]) -> Room {
    let mut board = Board::empty();
    for (loc, p) in pieces {
        board.set(loc, Some(*p));
    }
    Room { id: ['t', 'e', 's', 't'], board }
}

fn expect_invalid(r: ServerInGameMessage, reason: &str) {
    match r {
        ServerInGameMessage::InvalidMove(s) => assert_eq!(s, reason),
        other => panic!("expected InvalidMove({:?}), got {:?}", reason, other),
    }
}

#[test]
fn white_pawn_double_step_accepted() {
    // Scenario A: default board, first move of the pawn at (B, Two)
    let mut room = Room::new(['r', 'o', 'o', 'm']);
    let mut player = white_player();
    let r = room.make_move_for(&mut player, (Rank::B, File::Two), (Rank::B, File::Four), 10_000);
    match r {
        ServerInGameMessage::MoveRecv { player: color, from, to, capture, cooldown } => {
            assert_eq!(color, PlayerColor::White);
            assert_eq!(from, (Rank::B, File::Two));
            assert_eq!(to, (Rank::B, File::Four));
            assert!(!capture);
            assert_eq!(cooldown, 5000);
        },
        other => panic!("expected MoveRecv, got {:?}", other),
    }
    assert_eq!(room.board.get(&(Rank::B, File::Two)), None);
    let landed = room.board.get(&(Rank::B, File::Four)).expect("pawn landed");
    assert_eq!(landed.piece, ChessPiece::Pawn);
    assert_eq!(landed.color, PlayerColor::White);
    assert_eq!(landed.last_moved, 10_100);
    assert_eq!(landed.cooldown, 5000);
}

#[test]
fn white_pawn_triple_step_rejected() {
    // Scenario B: the same pawn asked to jump three squares forward
    let mut room = Room::new(['r', 'o', 'o', 'm']);
    let mut player = white_player();
    let r = room.make_move_for(&mut player, (Rank::B, File::Two), (Rank::B, File::Five), 10_000);
    expect_invalid(r, "pawns cannot capture forwards.");
}

#[test]
fn knight_two_one_accepted() {
    // Scenario C: the knight jumps at ratio 2:1, squared magnitude 5
    let mut room = Room::new(['r', 'o', 'o', 'm']);
    let mut player = white_player();
    let r = room.make_move_for(&mut player, (Rank::B, File::One), (Rank::A, File::Three), 10_000);
    match r {
        ServerInGameMessage::MoveRecv { capture, .. } => assert!(!capture),
        other => panic!("expected MoveRecv, got {:?}", other),
    }
}

#[test]
fn bishop_straight_rejected() {
    // Scenario D: a bishop on a clear file asked to move straight up
    let mut room = room_with(&[((Rank::C, File::One), piece(ChessPiece::B, PlayerColor::White))]);
    let mut player = white_player();
    let r = room.make_move_for(&mut player, (Rank::C, File::One), (Rank::C, File::Four), 10_000);
    expect_invalid(r, "the bishop can only move diagonally.");
}

#[test]
fn rejection_leaves_board_unchanged_and_repeats() {
    // an always-invalid request gives the same reason twice and never mutates
    let mut room = Room::new(['r', 'o', 'o', 'm']);
    let before: Vec<_> = all_squares(&room);
    let mut player = white_player();
    let first = room.make_move_for(&mut player, (Rank::D, File::Four), (Rank::D, File::Five), 10_000);
    let second = room.make_move_for(&mut player, (Rank::D, File::Four), (Rank::D, File::Five), 20_000);
    let reason = match first {
        ServerInGameMessage::InvalidMove(s) => s,
        other => panic!("expected InvalidMove, got {:?}", other),
    };
    assert_eq!(reason, "no piece to move at that position.");
    match second {
        ServerInGameMessage::InvalidMove(s) => assert_eq!(s, reason),
        other => panic!("expected InvalidMove, got {:?}", other),
    }
    assert_eq!(all_squares(&room), before);
    assert_eq!(player, white_player());
}

fn all_squares(room: &Room) -> Vec<Option<BoardPiece>> {
    let mut v = Vec::new();
    for r in 0..8 {
        for f in 0..8 {
            v.push(room.board.get_idx(r, f));
        }
    }
    v
}

#[test]
fn accepted_move_changes_exactly_two_squares() {
    let mut room = Room::new(['r', 'o', 'o', 'm']);
    let before = all_squares(&room);
    let mut player = white_player();
    let from = (Rank::E, File::Two);
    let to = (Rank::E, File::Three);
    let r = room.make_move_for(&mut player, from, to, 42_000);
    assert!(matches!(r, ServerInGameMessage::MoveRecv { .. }));
    let after = all_squares(&room);
    let from_idx = 4 * 8 + 1;
    let to_idx = 4 * 8 + 2;
    for i in 0..64 {
        if i == from_idx {
            assert_eq!(after[i], None);
        } else if i == to_idx {
            let landed = after[i].expect("moved occupant");
            assert_eq!(landed.piece, ChessPiece::Pawn);
            assert_eq!(landed.color, PlayerColor::White);
            assert_eq!(landed.last_moved, 42_100);
            assert_eq!(landed.cooldown, 5000);
        } else {
            assert_eq!(after[i], before[i], "square {} changed", i);
        }
    }
}

#[test]
fn early_move_rejected_with_cooldown_penalty() {
    // elapsed 200ms of a 1000ms cooldown: rejected, player penalized by 1000/3
    let mut occupant = piece(ChessPiece::R, PlayerColor::White);
    occupant.last_moved = 1000;
    occupant.cooldown = 1000;
    let mut room = room_with(&[((Rank::A, File::One), occupant)]);
    let mut player = white_player();
    let r = room.make_move_for(&mut player, (Rank::A, File::One), (Rank::A, File::Four), 1200);
    expect_invalid(r, "piece is on cooldown.");
    assert_eq!(player.cooldown, 5000 + 333);
    assert_eq!(room.board.get(&(Rank::A, File::One)), Some(occupant));
}

#[test]
fn penalty_window_move_accepted_with_surcharge() {
    // elapsed 800ms of a 1000ms cooldown: accepted, player penalized by 1000/4
    let mut occupant = piece(ChessPiece::R, PlayerColor::White);
    occupant.last_moved = 1000;
    occupant.cooldown = 1000;
    let mut room = room_with(&[((Rank::A, File::One), occupant)]);
    let mut player = white_player();
    let r = room.make_move_for(&mut player, (Rank::A, File::One), (Rank::A, File::Four), 1800);
    match r {
        ServerInGameMessage::MoveRecv { cooldown, .. } => assert_eq!(cooldown, 5250),
        other => panic!("expected MoveRecv, got {:?}", other),
    }
    assert_eq!(player.cooldown, 5250);
    let landed = room.board.get(&(Rank::A, File::Four)).expect("rook landed");
    assert_eq!(landed.cooldown, 5250);
}

#[test]
fn exact_threshold_move_is_penalized() {
    // elapsed exactly 750ms of a 1000ms cooldown: allowed, with the surcharge
    let mut occupant = piece(ChessPiece::R, PlayerColor::White);
    occupant.last_moved = 1000;
    occupant.cooldown = 1000;
    let mut room = room_with(&[((Rank::A, File::One), occupant)]);
    let mut player = white_player();
    let r = room.make_move_for(&mut player, (Rank::A, File::One), (Rank::A, File::Four), 1750);
    assert!(matches!(r, ServerInGameMessage::MoveRecv { .. }));
    assert_eq!(player.cooldown, 5250);
}

#[test]
fn moving_opponents_piece_rejected() {
    let mut room = Room::new(['r', 'o', 'o', 'm']);
    let mut player = white_player();
    let r = room.make_move_for(&mut player, (Rank::B, File::Seven), (Rank::B, File::Five), 10_000);
    expect_invalid(r, "you can only move your own pieces.");
}

#[test]
fn self_capture_rejected() {
    let mut room = Room::new(['r', 'o', 'o', 'm']);
    let mut player = white_player();
    let r = room.make_move_for(&mut player, (Rank::A, File::One), (Rank::A, File::Two), 10_000);
    expect_invalid(r, "you can't move a peice to a square ocupied by one of your own peice.");
}

#[test]
fn blocked_rook_rejected() {
    // the rook at (A, One) has its own pawn at (A, Two) in the way
    let mut room = Room::new(['r', 'o', 'o', 'm']);
    let mut player = white_player();
    let r = room.make_move_for(&mut player, (Rank::A, File::One), (Rank::A, File::Four), 10_000);
    expect_invalid(r, "piece in the way.");
}

#[test]
fn rook_capture_at_exact_distance_accepted() {
    // an opposing piece exactly at the destination is capturable
    let mut room = room_with(&[
        ((Rank::A, File::One), piece(ChessPiece::R, PlayerColor::White)),
        ((Rank::A, File::Five), piece(ChessPiece::Pawn, PlayerColor::Black)),
    ]);
    let mut player = white_player();
    let r = room.make_move_for(&mut player, (Rank::A, File::One), (Rank::A, File::Five), 10_000);
    match r {
        ServerInGameMessage::MoveRecv { capture, .. } => assert!(capture),
        other => panic!("expected MoveRecv, got {:?}", other),
    }
}

#[test]
fn rook_blocked_by_enemy_between() {
    let mut room = room_with(&[
        ((Rank::A, File::One), piece(ChessPiece::R, PlayerColor::White)),
        ((Rank::A, File::Three), piece(ChessPiece::Pawn, PlayerColor::Black)),
    ]);
    let mut player = white_player();
    let r = room.make_move_for(&mut player, (Rank::A, File::One), (Rank::A, File::Five), 10_000);
    expect_invalid(r, "piece in the way.");
}

#[test]
fn king_single_steps_accepted_and_double_rejected() {
    let mut room = room_with(&[((Rank::E, File::Four), piece(ChessPiece::K, PlayerColor::White))]);
    let mut player = white_player();
    let r = room.make_move_for(&mut player, (Rank::E, File::Four), (Rank::F, File::Five), 10_000);
    assert!(matches!(r, ServerInGameMessage::MoveRecv { .. }));

    let mut room = room_with(&[((Rank::E, File::Four), piece(ChessPiece::K, PlayerColor::White))]);
    let r = room.make_move_for(&mut player, (Rank::E, File::Four), (Rank::E, File::Six), 10_000);
    expect_invalid(r, "the king can only move one square at a time.");
}

#[test]
fn knight_wrong_ratio_rejected() {
    let mut room = room_with(&[((Rank::A, File::One), piece(ChessPiece::N, PlayerColor::White))]);
    let mut player = white_player();
    let r = room.make_move_for(&mut player, (Rank::A, File::One), (Rank::B, File::Two), 10_000);
    expect_invalid(r, "Knight movement had wrong angle.");
}

#[test]
fn knight_right_ratio_wrong_magnitude_rejected() {
    // ratio 2:1 at doubled scale: squared magnitude 20, not 5
    let mut room = room_with(&[((Rank::A, File::One), piece(ChessPiece::N, PlayerColor::White))]);
    let mut player = white_player();
    let r = room.make_move_for(&mut player, (Rank::A, File::One), (Rank::C, File::Five), 10_000);
    expect_invalid(r, "Knight movement had wrong magnitude.");
}

#[test]
fn queen_straight_and_diagonal_accepted_oblique_rejected() {
    let mut room = room_with(&[((Rank::D, File::One), piece(ChessPiece::Q, PlayerColor::White))]);
    let mut player = white_player();
    let r = room.make_move_for(&mut player, (Rank::D, File::One), (Rank::D, File::Six), 10_000);
    assert!(matches!(r, ServerInGameMessage::MoveRecv { .. }));

    let mut room = room_with(&[((Rank::D, File::One), piece(ChessPiece::Q, PlayerColor::White))]);
    let r = room.make_move_for(&mut player, (Rank::D, File::One), (Rank::H, File::Five), 10_000);
    assert!(matches!(r, ServerInGameMessage::MoveRecv { .. }));

    let mut room = room_with(&[((Rank::D, File::One), piece(ChessPiece::Q, PlayerColor::White))]);
    let r = room.make_move_for(&mut player, (Rank::D, File::One), (Rank::E, File::Four), 10_000);
    expect_invalid(r, "the queen must move diaganoly, vertically, or horzonatally.");
}

#[test]
fn rook_diagonal_rejected() {
    let mut room = room_with(&[((Rank::A, File::One), piece(ChessPiece::R, PlayerColor::White))]);
    let mut player = white_player();
    let r = room.make_move_for(&mut player, (Rank::A, File::One), (Rank::C, File::Three), 10_000);
    expect_invalid(r, "the rook can only move vertically or horizontally.");
}

#[test]
fn pawn_diagonal_capture_accepted() {
    let mut room = room_with(&[
        ((Rank::B, File::Two), piece(ChessPiece::Pawn, PlayerColor::White)),
        ((Rank::C, File::Three), piece(ChessPiece::Pawn, PlayerColor::Black)),
    ]);
    let mut player = white_player();
    let r = room.make_move_for(&mut player, (Rank::B, File::Two), (Rank::C, File::Three), 10_000);
    match r {
        ServerInGameMessage::MoveRecv { capture, .. } => assert!(capture),
        other => panic!("expected MoveRecv, got {:?}", other),
    }
}

#[test]
fn pawn_diagonal_without_capture_rejected() {
    let mut room = room_with(&[((Rank::B, File::Two), piece(ChessPiece::Pawn, PlayerColor::White))]);
    let mut player = white_player();
    let r = room.make_move_for(&mut player, (Rank::B, File::Two), (Rank::C, File::Three), 10_000);
    expect_invalid(r, "pawns can only move diaganoly when capturing a piece.");
}

#[test]
fn pawn_backward_rejected() {
    let mut room = room_with(&[((Rank::B, File::Three), piece(ChessPiece::Pawn, PlayerColor::White))]);
    let mut player = white_player();
    let r = room.make_move_for(&mut player, (Rank::B, File::Three), (Rank::B, File::Two), 10_000);
    expect_invalid(r, "pawns can only go forward.");
}

#[test]
fn pawn_double_step_off_start_row_rejected() {
    let mut room = room_with(&[((Rank::B, File::Three), piece(ChessPiece::Pawn, PlayerColor::White))]);
    let mut player = white_player();
    let r = room.make_move_for(&mut player, (Rank::B, File::Three), (Rank::B, File::Five), 10_000);
    expect_invalid(r, "pawns cannot capture forwards.");
}

#[test]
fn black_pawn_double_step_accepted() {
    let mut room = Room::new(['r', 'o', 'o', 'm']);
    let mut player = black_player();
    let r = room.make_move_for(&mut player, (Rank::B, File::Seven), (Rank::B, File::Five), 10_000);
    assert!(matches!(r, ServerInGameMessage::MoveRecv { .. }));
}

#[test]
fn black_pawn_single_step_rejected() {
    // preserved quirk: a single forward step for Black is angle 270, which
    // the pawn table does not list
    let mut room = Room::new(['r', 'o', 'o', 'm']);
    let mut player = black_player();
    let r = room.make_move_for(&mut player, (Rank::B, File::Seven), (Rank::B, File::Six), 10_000);
    expect_invalid(r, "pawns can only go forward.");
}

#[test]
fn default_board_opening_position() {
    let board = Board::default();
    let back = [
        ChessPiece::R,
        ChessPiece::N,
        ChessPiece::B,
        ChessPiece::Q,
        ChessPiece::K,
        ChessPiece::B,
        ChessPiece::N,
        ChessPiece::R,
    ];
    for r in 0..8 {
        assert_eq!(board.get_idx(r, 0), Some(piece(back[r], PlayerColor::White)));
        assert_eq!(board.get_idx(r, 1), Some(piece(ChessPiece::Pawn, PlayerColor::White)));
        for f in 2..6 {
            assert_eq!(board.get_idx(r, f), None);
        }
        assert_eq!(board.get_idx(r, 6), Some(piece(ChessPiece::Pawn, PlayerColor::Black)));
        assert_eq!(board.get_idx(r, 7), Some(piece(back[r], PlayerColor::Black)));
    }
}

#[test]
fn get_coords_lists_occupied_squares_in_order() {
    let board = Board::default();
    let coords = board.get_coords();
    assert_eq!(coords.len(), 32);
    assert_eq!(coords[0], ((0, 0), piece(ChessPiece::R, PlayerColor::White)));
    assert_eq!(coords[1], ((0, 1), piece(ChessPiece::Pawn, PlayerColor::White)));
    assert_eq!(coords[2], ((0, 6), piece(ChessPiece::Pawn, PlayerColor::Black)));

    let sparse = room_with(&[((Rank::C, File::Five), piece(ChessPiece::Q, PlayerColor::Black))]);
    let coords = sparse.board.get_coords();
    assert_eq!(coords, vec![((2, 4), piece(ChessPiece::Q, PlayerColor::Black))]);
}

#[test]
fn cooldown_penalty_saturates_at_the_counter_limit() {
    let mut occupant = piece(ChessPiece::R, PlayerColor::White);
    occupant.cooldown = u64::MAX;
    let mut room = room_with(&[((Rank::A, File::One), occupant)]);
    let mut player = Player { id: 1, color: PlayerColor::White, cooldown: u64::MAX - 10 };
    let r = room.make_move_for(&mut player, (Rank::A, File::One), (Rank::A, File::Four), 0);
    expect_invalid(r, "piece is on cooldown.");
    assert_eq!(player.cooldown, u64::MAX);
}

#[test]
fn null_move_rejected() {
    // a null move targets the mover's own occupied square, so the
    // self-capture check fires before any shape check
    let mut room = room_with(&[((Rank::A, File::One), piece(ChessPiece::R, PlayerColor::White))]);
    let mut player = white_player();
    let r = room.make_move_for(&mut player, (Rank::A, File::One), (Rank::A, File::One), 10_000);
    expect_invalid(r, "you can't move a peice to a square ocupied by one of your own peice.");
}
