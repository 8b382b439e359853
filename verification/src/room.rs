//! One match: a room id plus its board, and the move-legality engine.
//!
//! A requested move runs through a fixed sequence of checks — occupied
//! source, ownership, self-capture, obstruction, piece shape, cooldown — and
//! the first failure rejects the move with a specific reason; the board is
//! mutated only after every check passes. The whole decision is mirrored by
//! spec functions over the board view, so the engine's contracts pin the
//! outcome, the next board, and the player's next cooldown exactly.

use vstd::prelude::*;
use vstd::string::StringExecFns;
use crate::geometry::{File, Location, Slope, loc_index, mag_sq_spec, slope_spec};
use crate::board::{Board, BoardPiece, BoardSquare, ChessPiece, PlayerColor, is_starting_board};
use crate::protocol::{RoomID, ServerInGameMessage};
use crate::session::Player;

verus! {

/// Grace offset, in milliseconds, added to a moved piece's timestamp so the
/// cooldown window starts slightly after the move lands.
pub const MOVE_GRACE_MS: u64 = 100;

/// Why a requested move was refused. Each reason renders as the exact text
/// sent to clients in an `InvalidMove` reply.
#[derive(Debug, Clone, Copy, PartialEq, Eq, Structural)]
pub enum MoveError {
    /// The source square is empty.
    NoPieceAtSource,
    /// The piece at the source belongs to the other player.
    NotYourPiece,
    /// The destination holds a piece of the mover's own color.
    SelfCapture,
    /// Another piece stands on the path to the destination.
    PieceInWay,
    /// The king moves a single square, straight or diagonally.
    InvalidKingMove,
    /// The knight's rise over run must be plus or minus 2 or 1/2.
    KnightBadAngle,
    /// The knight's move must have squared magnitude 5.
    KnightBadMagnitude,
    /// The queen moves straight or diagonally.
    InvalidQueenMove,
    /// The bishop moves diagonally only.
    InvalidBishopMove,
    /// The rook moves straight only.
    InvalidRookMove,
    /// Pawns only move at angles 45, 90 or 135 (after the double-step case).
    PawnNotForward,
    /// A diagonal pawn step must capture an opposing piece one square away.
    PawnDiagonalNeedsCapture,
    /// A forward pawn step must be one square onto an empty destination.
    PawnForwardBlocked,
    /// The piece has not yet cooled down since its last move.
    OnCooldown,
}

impl MoveError {
    /// The reason text sent to the requesting client.
    pub open spec fn message_spec(self) -> Seq<char> {
        match self {
            MoveError::NoPieceAtSource => "no piece to move at that position."@,
            MoveError::NotYourPiece => "you can only move your own pieces."@,
            MoveError::SelfCapture => "you can't move a peice to a square ocupied by one of your own peice."@,
            MoveError::PieceInWay => "piece in the way."@,
            MoveError::InvalidKingMove => "the king can only move one square at a time."@,
            MoveError::KnightBadAngle => "Knight movement had wrong angle."@,
            MoveError::KnightBadMagnitude => "Knight movement had wrong magnitude."@,
            MoveError::InvalidQueenMove => "the queen must move diaganoly, vertically, or horzonatally."@,
            MoveError::InvalidBishopMove => "the bishop can only move diagonally."@,
            MoveError::InvalidRookMove => "the rook can only move vertically or horizontally."@,
            MoveError::PawnNotForward => "pawns can only go forward."@,
            MoveError::PawnDiagonalNeedsCapture => "pawns can only move diaganoly when capturing a piece."@,
            MoveError::PawnForwardBlocked => "pawns cannot capture forwards."@,
            MoveError::OnCooldown => "piece is on cooldown."@,
        }
    }

    pub fn message(&self) -> (s: String)
        ensures
            s@ == self.message_spec(),
    {
        match self {
            MoveError::NoPieceAtSource => String::from_str("no piece to move at that position."),
            MoveError::NotYourPiece => String::from_str("you can only move your own pieces."),
            MoveError::SelfCapture => String::from_str("you can't move a peice to a square ocupied by one of your own peice."),
            MoveError::PieceInWay => String::from_str("piece in the way."),
            MoveError::InvalidKingMove => String::from_str("the king can only move one square at a time."),
            MoveError::KnightBadAngle => String::from_str("Knight movement had wrong angle."),
            MoveError::KnightBadMagnitude => String::from_str("Knight movement had wrong magnitude."),
            MoveError::InvalidQueenMove => String::from_str("the queen must move diaganoly, vertically, or horzonatally."),
            MoveError::InvalidBishopMove => String::from_str("the bishop can only move diagonally."),
            MoveError::InvalidRookMove => String::from_str("the rook can only move vertically or horizontally."),
            MoveError::PawnNotForward => String::from_str("pawns can only go forward."),
            MoveError::PawnDiagonalNeedsCapture => String::from_str("pawns can only move diaganoly when capturing a piece."),
            MoveError::PawnForwardBlocked => String::from_str("pawns cannot capture forwards."),
            MoveError::OnCooldown => String::from_str("piece is on cooldown."),
        }
    }
}

// ---------------------------------------------------------------------------
// The spec-level model of the engine. Every executable method below is
// specified against these functions, so laws about the engine are proved
// once, over the model.
// ---------------------------------------------------------------------------

/// The square a location denotes in a board view.
pub open spec fn square_at(b: Seq<BoardSquare>, loc: Location) -> BoardSquare {
    b[loc_index(loc)]
}

/// Addition on u64 that stops at the largest value instead of wrapping.
pub open spec fn sat_add(a: u64, b: u64) -> u64 {
    if a + b > u64::MAX {
        u64::MAX
    } else {
        (a + b) as u64
    }
}

/// The sign of an integer: -1, 0 or 1.
pub open spec fn sign_of(x: int) -> int {
    if x > 0 {
        1
    } else if x < 0 {
        -1
    } else {
        0
    }
}

/// The absolute value of an integer.
pub open spec fn abs_of(x: int) -> int {
    if x < 0 {
        -x
    } else {
        x
    }
}

/// The number of unit steps a compass-direction slope spans.
pub open spec fn ray_len(s: Slope) -> int {
    if abs_of(s.rise as int) >= abs_of(s.run as int) {
        abs_of(s.rise as int)
    } else {
        abs_of(s.run as int)
    }
}

/// The square `k` unit steps from `(fr, ff)` along direction `(sr, sf)`.
pub open spec fn ray_square(b: Seq<BoardSquare>, fr: int, ff: int, sr: int, sf: int, k: int) -> BoardSquare {
    b[(fr + k * sr) * 8 + (ff + k * sf)]
}

/// Whether the square at raw indices `(r, f)` holds a piece of `color`.
pub open spec fn own_color_at(b: Seq<BoardSquare>, color: PlayerColor, r: int, f: int) -> bool {
    match b[r * 8 + f] {
        Some(t) => t.color == color,
        None => false,
    }
}

/// Whether something stands in the way of a move along slope `s` from `from`:
/// any piece strictly between source and destination blocks, and the
/// destination itself blocks when it holds a piece of the mover's own color
/// (an opposing piece at exactly the destination is capturable). Moves whose
/// slope is not one of the eight compass directions have no ray to obstruct.
pub open spec fn blocked(b: Seq<BoardSquare>, color: PlayerColor, from: Location, s: Slope) -> bool {
    if s.degrees_spec() is None {
        false
    } else {
        let fr = from.0.index_spec();
        let ff = from.1.index_spec();
        let sr = sign_of(s.run as int);
        let sf = sign_of(s.rise as int);
        let n = ray_len(s);
        ||| exists|k: int| 1 <= k < n && (#[trigger] ray_square(b, fr, ff, sr, sf, k)) is Some
        ||| own_color_at(b, color, fr + s.run, ff + s.rise)
    }
}

/// Milliseconds elapsed from `last_moved` to `now` on the monotonic clock;
/// a timestamp in the future counts as no time elapsed.
pub open spec fn elapsed_spec(now: u64, last_moved: u64) -> int {
    if now >= last_moved {
        now - last_moved
    } else {
        0
    }
}

/// A piece is still on cooldown while less than three quarters of its
/// assigned cooldown has elapsed.
pub open spec fn during_cooldown_spec(now: u64, last_moved: u64, cooldown: u64) -> bool {
    elapsed_spec(now, last_moved) < (cooldown / 4) * 3
}

/// A move in the last quarter of the cooldown window is allowed but
/// penalized.
pub open spec fn penalty_move_spec(now: u64, last_moved: u64, cooldown: u64) -> bool {
    (cooldown / 4) * 3 <= elapsed_spec(now, last_moved) < cooldown
}

/// Whether the destination holds an opposing piece, i.e. the move captures.
pub open spec fn capture_spec(b: Seq<BoardSquare>, color: PlayerColor, to: Location) -> bool {
    match square_at(b, to) {
        Some(t) => t.color != color,
        None => false,
    }
}

// --- shape validation: the accepted (magnitude, angle) table per piece ---

/// A straight compass angle.
pub open spec fn straight_angle(angle: Option<u16>) -> bool {
    angle == Some(0u16) || angle == Some(90u16) || angle == Some(180u16) || angle == Some(270u16)
}

/// A diagonal compass angle.
pub open spec fn diagonal_angle(angle: Option<u16>) -> bool {
    angle == Some(45u16) || angle == Some(135u16) || angle == Some(225u16) || angle == Some(315u16)
}

/// The king accepts one straight step (squared magnitude 1) or one diagonal
/// step (squared magnitude 2).
pub open spec fn king_shape_ok(mag_sq: int, angle: Option<u16>) -> bool {
    (mag_sq == 2 && diagonal_angle(angle)) || (mag_sq == 1 && straight_angle(angle))
}

/// The knight's rise over run must be plus or minus 2 or 1/2.
pub open spec fn knight_angle_ok(s: Slope) -> bool {
    ||| (s.run != 0 && abs_of(s.rise as int) == 2 * abs_of(s.run as int))
    ||| (s.rise != 0 && abs_of(s.run as int) == 2 * abs_of(s.rise as int))
}

/// The queen accepts any straight or diagonal angle.
pub open spec fn queen_angle_ok(angle: Option<u16>) -> bool {
    straight_angle(angle) || diagonal_angle(angle)
}

/// A pawn double-step: two squares forward, from the color's starting row
/// only (file Two for White, file Seven for Black).
pub open spec fn pawn_double_step_ok(color: PlayerColor, from: Location, mag_sq: int, angle: Option<u16>) -> bool {
    ||| (color == PlayerColor::White && from.1 == File::Two && angle == Some(90u16) && mag_sq == 4)
    ||| (color == PlayerColor::Black && from.1 == File::Seven && angle == Some(270u16) && mag_sq == 4)
}

/// The pawn's outcome: a double-step is allowed only on the color's home
/// row; otherwise the angle must be 45, 90 or 135, a diagonal step must
/// capture an opposing piece one square away, and a forward step must land
/// one square onto an empty destination.
pub open spec fn pawn_err(
    b: Seq<BoardSquare>,
    color: PlayerColor,
    from: Location,
    to: Location,
    mag_sq: int,
    angle: Option<u16>,
) -> Option<MoveError> {
    if pawn_double_step_ok(color, from, mag_sq, angle) {
        None
    } else if !(angle == Some(45u16) || angle == Some(90u16) || angle == Some(135u16)) {
        Some(MoveError::PawnNotForward)
    } else if angle == Some(45u16) || angle == Some(135u16) {
        if capture_spec(b, color, to) && mag_sq == 2 {
            None
        } else {
            Some(MoveError::PawnDiagonalNeedsCapture)
        }
    } else {
        if square_at(b, to) is None && mag_sq == 1 {
            None
        } else {
            Some(MoveError::PawnForwardBlocked)
        }
    }
}

/// The shape outcome for a piece moving from `from` to `to`: `None` when the
/// move's (magnitude, angle) pair is accepted for that piece, otherwise the
/// piece-specific reason.
pub open spec fn shape_err(
    b: Seq<BoardSquare>,
    piece: ChessPiece,
    color: PlayerColor,
    from: Location,
    to: Location,
) -> Option<MoveError> {
    let s = slope_spec(from, to);
    let mag_sq = mag_sq_spec(s);
    let angle = s.degrees_spec();
    match piece {
        ChessPiece::K => if king_shape_ok(mag_sq, angle) {
            None
        } else {
            Some(MoveError::InvalidKingMove)
        },
        ChessPiece::N => if !knight_angle_ok(s) {
            Some(MoveError::KnightBadAngle)
        } else if mag_sq != 5 {
            Some(MoveError::KnightBadMagnitude)
        } else {
            None
        },
        ChessPiece::Q => if queen_angle_ok(angle) {
            None
        } else {
            Some(MoveError::InvalidQueenMove)
        },
        ChessPiece::B => if diagonal_angle(angle) {
            None
        } else {
            Some(MoveError::InvalidBishopMove)
        },
        ChessPiece::R => if straight_angle(angle) {
            None
        } else {
            Some(MoveError::InvalidRookMove)
        },
        ChessPiece::Pawn => pawn_err(b, color, from, to, mag_sq, angle),
    }
}

/// The outcome of the geometric checks: obstruction (skipped for the knight,
/// whose path is not a straight line) and then the shape table.
pub open spec fn move_vec_err(
    b: Seq<BoardSquare>,
    piece: ChessPiece,
    color: PlayerColor,
    from: Location,
    to: Location,
) -> Option<MoveError> {
    if piece != ChessPiece::N && blocked(b, color, from, slope_spec(from, to)) {
        Some(MoveError::PieceInWay)
    } else {
        shape_err(b, piece, color, from, to)
    }
}

/// The time-independent outcome on a requested move: the first failing check
/// among occupied source, ownership, self-capture, obstruction and shape, or
/// `None` when all of them pass.
pub open spec fn static_reject(
    b: Seq<BoardSquare>,
    color: PlayerColor,
    from: Location,
    to: Location,
) -> Option<MoveError> {
    match square_at(b, from) {
        None => Some(MoveError::NoPieceAtSource),
        Some(occ) => if occ.color != color {
            Some(MoveError::NotYourPiece)
        } else if capture_spec(b, color, to) == false && square_at(b, to) is Some {
            Some(MoveError::SelfCapture)
        } else if move_vec_err(b, occ.piece, color, from, to) is Some {
            move_vec_err(b, occ.piece, color, from, to)
        } else {
            None
        },
    }
}

/// The full outcome on a requested move at time `now`: a static rejection,
/// a cooldown rejection, or acceptance (`None`).
pub open spec fn spec_move_reject(
    b: Seq<BoardSquare>,
    color: PlayerColor,
    from: Location,
    to: Location,
    now: u64,
) -> Option<MoveError> {
    match static_reject(b, color, from, to) {
        Some(e) => Some(e),
        None => {
            let occ = square_at(b, from)->0;
            if during_cooldown_spec(now, occ.last_moved, occ.cooldown) {
                Some(MoveError::OnCooldown)
            } else {
                None
            }
        },
    }
}

/// The mover's cooldown after the request: a cooldown rejection adds a third
/// of the piece's assigned cooldown, a move in the penalty window adds a
/// quarter, and any other outcome leaves it unchanged. Only meaningful once
/// the static checks pass.
pub open spec fn spec_new_cooldown(
    b: Seq<BoardSquare>,
    p: Player,
    from: Location,
    to: Location,
    now: u64,
) -> u64 {
    let occ = square_at(b, from)->0;
    if during_cooldown_spec(now, occ.last_moved, occ.cooldown) {
        sat_add(p.cooldown, occ.cooldown / 3)
    } else if penalty_move_spec(now, occ.last_moved, occ.cooldown) {
        sat_add(p.cooldown, occ.cooldown / 4)
    } else {
        p.cooldown
    }
}

/// The player value after the request: unchanged on a static rejection, else
/// with the cooldown bookkeeping applied.
pub open spec fn spec_player_after(
    b: Seq<BoardSquare>,
    p: Player,
    from: Location,
    to: Location,
    now: u64,
) -> Player {
    if static_reject(b, p.color, from, to) is Some {
        p
    } else {
        Player { cooldown: spec_new_cooldown(b, p, from, to, now), ..p }
    }
}

/// The board after physically moving the occupant of `from` to `to`: the
/// moved piece keeps its kind and color, is stamped with `now` plus the grace
/// offset, and is assigned `cooldown`; the source square is cleared last.
pub open spec fn make_move_board_spec(
    b: Seq<BoardSquare>,
    from: Location,
    to: Location,
    cooldown: u64,
    now: u64,
) -> Seq<BoardSquare> {
    let moved = match square_at(b, from) {
        Some(occ) => Some(BoardPiece {
            piece: occ.piece,
            color: occ.color,
            last_moved: sat_add(now, MOVE_GRACE_MS),
            cooldown,
        }),
        None => None,
    };
    b.update(loc_index(to), moved).update(loc_index(from), None)
}

/// The board after the request: unchanged on any rejection, else the move
/// applied with the player's new cooldown.
pub open spec fn spec_next_board(
    b: Seq<BoardSquare>,
    p: Player,
    from: Location,
    to: Location,
    now: u64,
) -> Seq<BoardSquare> {
    if spec_move_reject(b, p.color, from, to, now) is Some {
        b
    } else {
        make_move_board_spec(b, from, to, spec_new_cooldown(b, p, from, to, now), now)
    }
}

// ---------------------------------------------------------------------------
// Laws of the engine, proved once over the spec model.
// ---------------------------------------------------------------------------

/// No rejected move ever mutates the board.
pub proof fn lemma_reject_no_board_change(
    b: Seq<BoardSquare>,
    p: Player,
    from: Location,
    to: Location,
    now: u64,
)
    requires
        spec_move_reject(b, p.color, from, to, now) is Some,
    ensures
        spec_next_board(b, p, from, to, now) == b,
{
}

/// Rejections are idempotent: a move refused by the time-independent checks
/// (anything but the cooldown gate) leaves both the board and the player
/// untouched, and repeating the request at any time yields the same reason.
pub proof fn lemma_rejection_idempotent(
    b: Seq<BoardSquare>,
    p: Player,
    from: Location,
    to: Location,
    now1: u64,
    now2: u64,
)
    requires
        static_reject(b, p.color, from, to) is Some,
    ensures
        spec_next_board(b, p, from, to, now1) == b,
        spec_player_after(b, p, from, to, now1) == p,
        spec_move_reject(b, p.color, from, to, now1) == spec_move_reject(b, p.color, from, to, now2),
        spec_move_reject(b, p.color, from, to, now1) == static_reject(b, p.color, from, to),
{
}

/// After any accepted move: the source square is empty, the destination holds
/// the moved occupant with its timestamp updated to `now` plus the grace
/// offset and the player's new cooldown assigned, and every other square is
/// unchanged.
pub proof fn lemma_accepted_move_board(
    b: Seq<BoardSquare>,
    p: Player,
    from: Location,
    to: Location,
    now: u64,
)
    requires
        b.len() == 64,
        spec_move_reject(b, p.color, from, to, now) is None,
    ensures
        from != to,
        square_at(spec_next_board(b, p, from, to, now), from) is None,
        square_at(spec_next_board(b, p, from, to, now), to) == Some(BoardPiece {
            piece: square_at(b, from)->0.piece,
            color: square_at(b, from)->0.color,
            last_moved: sat_add(now, MOVE_GRACE_MS),
            cooldown: spec_new_cooldown(b, p, from, to, now),
        }),
        forall|loc: Location|
            loc != from && loc != to
                ==> #[trigger] square_at(spec_next_board(b, p, from, to, now), loc) == square_at(b, loc),
{
    if from == to {
        // a null move has slope (0, 0), which every piece's shape refuses
        assert(slope_spec(from, to) == Slope { rise: 0, run: 0 });
        assert(static_reject(b, p.color, from, to) is Some);
    }
    crate::geometry::lemma_loc_index_injective(from, to);
    assert forall|loc: Location|
        loc != from && loc != to
            implies #[trigger] square_at(spec_next_board(b, p, from, to, now), loc) == square_at(b, loc) by {
        crate::geometry::lemma_loc_index_injective(loc, from);
        crate::geometry::lemma_loc_index_injective(loc, to);
    }
}

/// A move attempted before three quarters of the piece's assigned cooldown
/// has elapsed is always rejected, never mutates the board, and increases the
/// mover's cooldown by exactly a third of the piece's assigned cooldown
/// (stated here for sums that fit in the counter).
pub proof fn lemma_cooldown_rejection(
    b: Seq<BoardSquare>,
    p: Player,
    from: Location,
    to: Location,
    now: u64,
)
    requires
        static_reject(b, p.color, from, to) is None,
        during_cooldown_spec(now, square_at(b, from)->0.last_moved, square_at(b, from)->0.cooldown),
        p.cooldown + square_at(b, from)->0.cooldown / 3 <= u64::MAX,
    ensures
        spec_move_reject(b, p.color, from, to, now) == Some(MoveError::OnCooldown),
        spec_next_board(b, p, from, to, now) == b,
        spec_player_after(b, p, from, to, now) == (Player {
            cooldown: (p.cooldown + square_at(b, from)->0.cooldown / 3) as u64,
            ..p
        }),
{
}

// ---------------------------------------------------------------------------
// Room
// ---------------------------------------------------------------------------

/// One match: an id and a board. Room ids are unique among the rooms a
/// session manager holds; see `crate::session`.
#[derive(Debug, Clone)]
pub struct Room {
    pub id: RoomID,
    pub board: Board,
}

impl Room {
    /// A fresh room with the given id and the standard opening position.
    pub fn new(id: RoomID) -> (r: Room)
        ensures
            r.id == id,
            r.board.wf(),
            is_starting_board(r.board@),
    {
        Room { id, board: Board::default() }
    }
}

impl Default for Room {
    /// A room with a zeroed id and the standard opening position.
    fn default() -> (r: Room)
        ensures
            r.id@ =~= seq!['\0', '\0', '\0', '\0'],
            r.board.wf(),
            is_starting_board(r.board@),
    {
        Room::new(['\0', '\0', '\0', '\0'])
    }
}

impl Room {
    /// Whether the mover owns the piece being moved.
    pub fn moving_own_peice(&self, player_color: PlayerColor, moving_peice_color: PlayerColor) -> (r: bool)
        ensures
            r == (moving_peice_color == player_color),
    {
        moving_peice_color == player_color
    }

    /// Whether moving to `to` would capture an opposing piece.
    pub fn capture(&self, player_color: PlayerColor, to: &Location) -> (r: bool)
        requires
            self.board.wf(),
        ensures
            r == capture_spec(self.board@, player_color, *to),
    {
        match self.board.get(to) {
            Some(t) => t.color != player_color,
            None => false,
        }
    }

    /// Whether `to` holds a piece of the mover's own color.
    pub fn self_capture(&self, player_color: PlayerColor, to: &Location) -> (r: bool)
        requires
            self.board.wf(),
        ensures
            r == (square_at(self.board@, *to) is Some && !capture_spec(self.board@, player_color, *to)),
    {
        match self.board.get(to) {
            Some(t) => t.color == player_color,
            None => false,
        }
    }

    /// Whether a piece last moved at `last_moved` with assigned `cooldown` is
    /// still on cooldown at `now`.
    pub fn durring_cooldown(&self, now: u64, last_moved: u64, cooldown: u64) -> (r: bool)
        ensures
            r == during_cooldown_spec(now, last_moved, cooldown),
    {
        let elapsed = now.saturating_sub(last_moved);
        let quarter = cooldown / 4;
        elapsed < quarter * 3
    }

    /// Whether a move at `now` lands in the penalty window: allowed, but the
    /// mover's next cooldown grows.
    pub fn penalty_move(&self, now: u64, last_moved: u64, cooldown: u64) -> (r: bool)
        ensures
            r == penalty_move_spec(now, last_moved, cooldown),
    {
        let elapsed = now.saturating_sub(last_moved);
        let quarter = cooldown / 4;
        elapsed >= quarter * 3 && elapsed < cooldown
    }

    /// The move vector from `from` to `to`: squared magnitude and slope.
    pub fn calc_move_vec(&self, from: &Location, to: &Location) -> (v: (u32, Slope))
        ensures
            v.1 == slope_spec(*from, *to),
            v.0 == mag_sq_spec(v.1),
    {
        self.do_calc_move_vec(from.0.index(), to.0.index(), from.1.index(), to.1.index())
    }

    /// The move vector between raw coordinates `(x1, y1)` and `(x2, y2)`.
    pub fn do_calc_move_vec(&self, x1: usize, x2: usize, y1: usize, y2: usize) -> (v: (u32, Slope))
        requires
            x1 < 8,
            x2 < 8,
            y1 < 8,
            y2 < 8,
        ensures
            v.1.run == x2 - x1,
            v.1.rise == y2 - y1,
            v.0 == mag_sq_spec(v.1),
    {
        let run: i32 = x2 as i32 - x1 as i32;
        let rise: i32 = y2 as i32 - y1 as i32;
        proof {
            assert(0 <= rise * rise < 64 && 0 <= run * run < 64) by (nonlinear_arith)
                requires
                    -8 < rise < 8,
                    -8 < run < 8,
            ;
        }
        let mag_sq: u32 = (rise * rise + run * run) as u32;
        (mag_sq, Slope { rise, run })
    }

    /// Physically move the occupant of `from` to `to`, stamping it with `now`
    /// plus the grace offset and the given assigned cooldown, then clear
    /// `from`. No legality is checked at this layer: callers must have
    /// validated the move first.
    pub fn make_move(&mut self, from: &Location, to: &Location, cooldown: u64, now: u64)
        requires
            old(self).board.wf(),
        ensures
            final(self).id == old(self).id,
            final(self).board.wf(),
            final(self).board@ == make_move_board_spec(old(self).board@, *from, *to, cooldown, now),
    {
        let moved = match self.board.get(from) {
            Some(occ) => Some(BoardPiece {
                piece: occ.piece,
                color: occ.color,
                last_moved: now.saturating_add(MOVE_GRACE_MS),
                cooldown,
            }),
            None => None,
        };
        self.board.set(to, moved);
        self.board.set(from, None);
    }

    /// Resolve a move request from `player` against this room's board at time
    /// `now` (milliseconds on the caller's monotonic clock): run every check
    /// in order, apply the move and the cooldown bookkeeping, and reply with
    /// either the accepted move or the specific reason it was refused.
    pub fn make_move_for(&mut self, player: &mut Player, from: Location, to: Location, now: u64) -> (r: ServerInGameMessage)
        requires
            old(self).board.wf(),
        ensures
            final(self).id == old(self).id,
            final(self).board.wf(),
            final(self).board@ == spec_next_board(old(self).board@, *old(player), from, to, now),
            *final(player) == spec_player_after(old(self).board@, *old(player), from, to, now),
            match spec_move_reject(old(self).board@, old(player).color, from, to, now) {
                Some(e) => r matches ServerInGameMessage::InvalidMove(s) && s@ == e.message_spec(),
                None => r == (ServerInGameMessage::MoveRecv {
                    player: old(player).color,
                    from,
                    to,
                    capture: capture_spec(old(self).board@, old(player).color, to),
                    cooldown: spec_new_cooldown(old(self).board@, *old(player), from, to, now),
                }),
            },
    {
        let src = self.board.get(&from);
        let (piece, moving_peice_color, last_moved, cooldown) = match src {
            Some(occ) => (occ.piece, occ.color, occ.last_moved, occ.cooldown),
            None => {
                return ServerInGameMessage::InvalidMove(MoveError::NoPieceAtSource.message());
            },
        };
        if !self.moving_own_peice(player.color, moving_peice_color) {
            return ServerInGameMessage::InvalidMove(MoveError::NotYourPiece.message());
        }
        if self.self_capture(player.color, &to) {
            return ServerInGameMessage::InvalidMove(MoveError::SelfCapture.message());
        }
        // calculate the move's vector and check obstruction and shape
        if let Err(e) = self.validated_move_vec(piece, &from, &to, moving_peice_color) {
            return ServerInGameMessage::InvalidMove(e.message());
        }
        if self.durring_cooldown(now, last_moved, cooldown) {
            player.cooldown = player.cooldown.saturating_add(cooldown / 3);
            return ServerInGameMessage::InvalidMove(MoveError::OnCooldown.message());
        } else if self.penalty_move(now, last_moved, cooldown) {
            player.cooldown = player.cooldown.saturating_add(cooldown / 4);
        }
        let capture = self.capture(player.color, &to);
        self.make_move(&from, &to, player.cooldown, now);
        ServerInGameMessage::MoveRecv {
            player: player.color,
            from,
            to,
            capture,
            cooldown: player.cooldown,
        }
    }

    /// The geometric checks of the engine: obstruction (skipped for the
    /// knight) and then the piece's shape table.
    fn validated_move_vec(
        &self,
        piece: ChessPiece,
        from: &Location,
        to: &Location,
        moving_peice_color: PlayerColor,
    ) -> (r: Result<(), MoveError>)
        requires
            self.board.wf(),
        ensures
            r is Ok <==> move_vec_err(self.board@, piece, moving_peice_color, *from, *to) is None,
            r is Err ==> r == Err::<(), MoveError>(
                move_vec_err(self.board@, piece, moving_peice_color, *from, *to)->0,
            ),
    {
        let (magnitude_sq, slope) = self.calc_move_vec(from, to);
        if piece != ChessPiece::N {
            if let Err(e) = self.piece_in_way(slope, from, moving_peice_color) {
                return Err(e);
            }
        }
        let angle = slope.to_degrees();
        match piece {
            ChessPiece::K => self.validate_king_move(magnitude_sq, angle),
            ChessPiece::N => self.validate_knight_move(magnitude_sq, slope),
            ChessPiece::Q => self.validate_queen_move(angle),
            ChessPiece::B => self.validate_bishop_move(angle),
            ChessPiece::R => self.validate_rook_move(angle),
            ChessPiece::Pawn => self.validate_pawn_move(magnitude_sq, angle, from, to, moving_peice_color),
        }
    }

    /// Check the obstruction rule: walk the ray from `from` one unit step at
    /// a time; any piece strictly before the destination blocks the move, and
    /// a piece of the mover's own color at the destination blocks it too.
    /// Moves whose slope is not a compass direction have no ray to walk.
    fn piece_in_way(&self, slope: Slope, from: &Location, moving_peice_color: PlayerColor) -> (r: Result<(), MoveError>)
        requires
            self.board.wf(),
            0 <= from.0.index_spec() + slope.run < 8,
            0 <= from.1.index_spec() + slope.rise < 8,
        ensures
            r is Ok <==> !blocked(self.board@, moving_peice_color, *from, slope),
            r is Err ==> r == Err::<(), MoveError>(MoveError::PieceInWay),
    {
        let d = slope.to_degrees();
        if d.is_none() {
            return Ok(());
        }
        let fr = from.0.index();
        let ff = from.1.index();
        let sr: i32 = if slope.run > 0 { 1 } else if slope.run < 0 { -1 } else { 0 };
        let sf: i32 = if slope.rise > 0 { 1 } else if slope.rise < 0 { -1 } else { 0 };
        let ar: i32 = if slope.run >= 0 { slope.run } else { -slope.run };
        let af: i32 = if slope.rise >= 0 { slope.rise } else { -slope.rise };
        let n: i32 = if af >= ar { af } else { ar };
        proof {
            assert(sr as int == sign_of(slope.run as int));
            assert(sf as int == sign_of(slope.rise as int));
            assert(n as int == ray_len(slope));
            // a compass-direction slope is straight or exactly diagonal, so n
            // unit steps land exactly on the destination
            assert(slope.rise == 0 || slope.run == 0 || slope.rise == slope.run
                || slope.rise == -slope.run);
            assert(n * sr == slope.run && n * sf == slope.rise && n >= 1) by (nonlinear_arith)
                requires
                    sr == sign_of(slope.run as int),
                    sf == sign_of(slope.rise as int),
                    n as int == ray_len(slope),
                    !(slope.rise == 0 && slope.run == 0),
                    slope.rise == 0 || slope.run == 0 || slope.rise == slope.run
                        || slope.rise == -slope.run,
            ;
        }
        let mut k: i32 = 1;
        while k < n
            invariant
                self.board.wf(),
                1 <= k <= n,
                fr < 8,
                ff < 8,
                fr == from.0.index_spec(),
                ff == from.1.index_spec(),
                0 <= fr + slope.run < 8,
                0 <= ff + slope.rise < 8,
                sr == 1 || sr == 0 || sr == -1,
                sf == 1 || sf == 0 || sf == -1,
                sr as int == sign_of(slope.run as int),
                sf as int == sign_of(slope.rise as int),
                n as int == ray_len(slope),
                slope.degrees_spec() is Some,
                n * sr == slope.run,
                n * sf == slope.rise,
                forall|j: int| 1 <= j < k
                    ==> !((#[trigger] ray_square(self.board@, fr as int, ff as int, sr as int, sf as int, j)) is Some),
            decreases n - k,
        {
            proof {
                assert(-8 < k * sr < 8 && -8 < k * sf < 8 && 0 <= fr + k * sr < 8
                    && 0 <= ff + k * sf < 8) by (nonlinear_arith)
                    requires
                        0 <= fr < 8,
                        0 <= ff < 8,
                        0 <= fr + slope.run < 8,
                        0 <= ff + slope.rise < 8,
                        sr == 1 || sr == 0 || sr == -1,
                        sf == 1 || sf == 0 || sf == -1,
                        slope.run == n * sr,
                        slope.rise == n * sf,
                        1 <= k <= n,
                ;
            }
            let rr = (fr as i32 + k * sr) as usize;
            let cf = (ff as i32 + k * sf) as usize;
            if self.board.get_idx(rr, cf).is_some() {
                proof {
                    assert(ray_square(self.board@, fr as int, ff as int, sr as int, sf as int, k as int) is Some);
                }
                return Err(MoveError::PieceInWay);
            }
            k += 1;
        }
        let tr = (fr as i32 + slope.run) as usize;
        let tf = (ff as i32 + slope.rise) as usize;
        match self.board.get_idx(tr, tf) {
            Some(t) => if t.color == moving_peice_color {
                Err(MoveError::PieceInWay)
            } else {
                Ok(())
            },
            None => Ok(()),
        }
    }

    /// The king accepts one straight step or one diagonal step.
    fn validate_king_move(&self, magnitude_sq: u32, angle: Option<u16>) -> (r: Result<(), MoveError>)
        ensures
            r is Ok <==> king_shape_ok(magnitude_sq as int, angle),
            r is Err ==> r == Err::<(), MoveError>(MoveError::InvalidKingMove),
    {
        let diagonal = magnitude_sq == 2 && match angle {
            Some(a) => a == 45 || a == 135 || a == 225 || a == 315,
            None => false,
        };
        let straight = magnitude_sq == 1 && match angle {
            Some(a) => a == 0 || a == 90 || a == 180 || a == 270,
            None => false,
        };
        if diagonal || straight {
            Ok(())
        } else {
            Err(MoveError::InvalidKingMove)
        }
    }

    /// The knight needs rise over run of plus or minus 2 or 1/2, and squared
    /// magnitude 5.
    fn validate_knight_move(&self, magnitude_sq: u32, slope: Slope) -> (r: Result<(), MoveError>)
        requires
            -8 < slope.rise < 8,
            -8 < slope.run < 8,
        ensures
            r is Ok <==> knight_angle_ok(slope) && magnitude_sq == 5,
            r is Err ==> (r == Err::<(), MoveError>(if !knight_angle_ok(slope) {
                MoveError::KnightBadAngle
            } else {
                MoveError::KnightBadMagnitude
            })),
    {
        let ar: i32 = if slope.rise >= 0 { slope.rise } else { -slope.rise };
        let au: i32 = if slope.run >= 0 { slope.run } else { -slope.run };
        let ratio_ok = (slope.run != 0 && ar == 2 * au) || (slope.rise != 0 && au == 2 * ar);
        if !ratio_ok {
            Err(MoveError::KnightBadAngle)
        } else if magnitude_sq != 5 {
            Err(MoveError::KnightBadMagnitude)
        } else {
            Ok(())
        }
    }

    /// The queen accepts any straight or diagonal angle.
    fn validate_queen_move(&self, angle: Option<u16>) -> (r: Result<(), MoveError>)
        ensures
            r is Ok <==> queen_angle_ok(angle),
            r is Err ==> r == Err::<(), MoveError>(MoveError::InvalidQueenMove),
    {
        match angle {
            Some(a) => if a == 0 || a == 45 || a == 90 || a == 135 || a == 180 || a == 225 || a == 270
                || a == 315 {
                Ok(())
            } else {
                Err(MoveError::InvalidQueenMove)
            },
            None => Err(MoveError::InvalidQueenMove),
        }
    }

    /// The bishop accepts diagonal angles only.
    fn validate_bishop_move(&self, angle: Option<u16>) -> (r: Result<(), MoveError>)
        ensures
            r is Ok <==> diagonal_angle(angle),
            r is Err ==> r == Err::<(), MoveError>(MoveError::InvalidBishopMove),
    {
        match angle {
            Some(a) => if a == 45 || a == 135 || a == 225 || a == 315 {
                Ok(())
            } else {
                Err(MoveError::InvalidBishopMove)
            },
            None => Err(MoveError::InvalidBishopMove),
        }
    }

    /// The rook accepts straight angles only.
    fn validate_rook_move(&self, angle: Option<u16>) -> (r: Result<(), MoveError>)
        ensures
            r is Ok <==> straight_angle(angle),
            r is Err ==> r == Err::<(), MoveError>(MoveError::InvalidRookMove),
    {
        match angle {
            Some(a) => if a == 0 || a == 90 || a == 180 || a == 270 {
                Ok(())
            } else {
                Err(MoveError::InvalidRookMove)
            },
            None => Err(MoveError::InvalidRookMove),
        }
    }

    /// The pawn's checks: double-step from the starting row, else forward
    /// angles only, with diagonal steps capturing and forward steps landing
    /// on an empty square.
    fn validate_pawn_move(
        &self,
        magnitude_sq: u32,
        angle: Option<u16>,
        from: &Location,
        to: &Location,
        moving_peice_color: PlayerColor,
    ) -> (r: Result<(), MoveError>)
        requires
            self.board.wf(),
        ensures
            r is Ok <==> pawn_err(self.board@, moving_peice_color, *from, *to, magnitude_sq as int, angle) is None,
            r is Err ==> r == Err::<(), MoveError>(
                pawn_err(self.board@, moving_peice_color, *from, *to, magnitude_sq as int, angle)->0,
            ),
    {
        let is_white = moving_peice_color == PlayerColor::White;
        let double_step = magnitude_sq == 4 && match angle {
            Some(a) => (is_white && a == 90 && from.1.index() == 1)
                || (!is_white && a == 270 && from.1.index() == 6),
            None => false,
        };
        if double_step {
            return Ok(());
        }
        let a = match angle {
            Some(a) => a,
            None => { return Err(MoveError::PawnNotForward); },
        };
        if !(a == 45 || a == 135 || a == 90) {
            return Err(MoveError::PawnNotForward);
        }
        if a == 45 || a == 135 {
            if self.capture(moving_peice_color, to) && magnitude_sq == 2 {
                Ok(())
            } else {
                Err(MoveError::PawnDiagonalNeedsCapture)
            }
        } else {
            if self.board.get(to).is_none() && magnitude_sq == 1 {
                Ok(())
            } else {
                Err(MoveError::PawnForwardBlocked)
            }
        }
    }
}

} // verus!
