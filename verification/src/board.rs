//! The 8x8 board of optional occupants and its physical move operation.
//!
//! The board performs no legality checking: callers (the move-legality engine
//! in [`crate::room`]) must validate a move before applying it. Timestamps and
//! cooldown durations are plain integers in milliseconds on a monotonic clock
//! supplied by the caller.

use vstd::prelude::*;
use crate::geometry::{Location, loc_index};

verus! {

/// The kinds of chess piece: King, Queen, Bishop, kNight, Rook and Pawn.
#[derive(Debug, Clone, Copy, PartialEq, Eq, Structural)]
pub enum ChessPiece {
    K,
    Q,
    B,
    N,
    R,
    Pawn,
}

/// The two sides of a match.
#[derive(Debug, Clone, Copy, PartialEq, Eq, Structural)]
pub enum PlayerColor {
    Black,
    White,
}

/// One piece standing on the board: its kind, its owner, the time it last
/// moved (milliseconds on the caller's monotonic clock) and the cooldown
/// duration it was assigned when it last moved (milliseconds).
#[derive(Debug, Clone, Copy, PartialEq, Eq, Structural)]
pub struct BoardPiece {
    pub piece: ChessPiece,
    pub color: PlayerColor,
    pub last_moved: u64,
    pub cooldown: u64,
}

/// One square of the board: empty or holding a piece.
pub type BoardSquare = Option<BoardPiece>;

/// An 8x8 grid of squares, stored row-major by rank then file, so the square
/// at location `(r, f)` sits at flat index `r * 8 + f` of the view.
#[derive(Debug, Clone)]
pub struct Board {
    squares: Vec<BoardSquare>,
}

impl View for Board {
    type V = Seq<BoardSquare>;

    closed spec fn view(&self) -> Seq<BoardSquare> {
        self.squares@
    }
}

/// The piece that opens the game on the back row at rank index `r`.
pub open spec fn back_row_piece(r: int) -> ChessPiece {
    if r == 0 || r == 7 {
        ChessPiece::R
    } else if r == 1 || r == 6 {
        ChessPiece::N
    } else if r == 2 || r == 5 {
        ChessPiece::B
    } else if r == 3 {
        ChessPiece::Q
    } else {
        ChessPiece::K
    }
}

/// The occupant of square `(r, f)` in the standard opening position: White's
/// pieces fill files One and Two, Black's fill files Seven and Eight, and all
/// start with a zero timestamp and zero assigned cooldown.
pub open spec fn starting_square(r: int, f: int) -> BoardSquare {
    if f == 0 {
        Some(BoardPiece { piece: back_row_piece(r), color: PlayerColor::White, last_moved: 0, cooldown: 0 })
    } else if f == 1 {
        Some(BoardPiece { piece: ChessPiece::Pawn, color: PlayerColor::White, last_moved: 0, cooldown: 0 })
    } else if f == 6 {
        Some(BoardPiece { piece: ChessPiece::Pawn, color: PlayerColor::Black, last_moved: 0, cooldown: 0 })
    } else if f == 7 {
        Some(BoardPiece { piece: back_row_piece(r), color: PlayerColor::Black, last_moved: 0, cooldown: 0 })
    } else {
        None
    }
}

/// A board view holds exactly the standard opening position.
pub open spec fn is_starting_board(b: Seq<BoardSquare>) -> bool {
    &&& b.len() == 64
    &&& forall|r: int, f: int|
        0 <= r < 8 && 0 <= f < 8 ==> b[r * 8 + f] == starting_square(r, f)
}

impl Board {
    /// A board is well formed when it has exactly 64 squares.
    pub open spec fn wf(&self) -> bool {
        self@.len() == 64
    }

    /// An empty board, useful for setting up bespoke positions.
    pub fn empty() -> (b: Board)
        ensures
            b.wf(),
            forall|i: int| 0 <= i < 64 ==> b@[i] is None,
    {
        let mut squares: Vec<BoardSquare> = Vec::new();
        let mut i: usize = 0;
        while i < 64
            invariant
                i <= 64,
                squares@.len() == i,
                forall|j: int| 0 <= j < i ==> squares@[j] is None,
            decreases 64 - i,
        {
            squares.push(None);
            i += 1;
        }
        Board { squares }
    }

    /// The square at `(r, f)` by raw indices.
    pub fn get_idx(&self, r: usize, f: usize) -> (s: BoardSquare)
        requires
            self.wf(),
            r < 8,
            f < 8,
        ensures
            s == self@[r * 8 + f],
    {
        self.squares[r * 8 + f]
    }

    /// The square at a location.
    pub fn get(&self, loc: &Location) -> (s: BoardSquare)
        requires
            self.wf(),
        ensures
            s == self@[loc_index(*loc)],
    {
        self.get_idx(loc.0.index(), loc.1.index())
    }

    /// Replace the square at a location, leaving every other square as it was.
    pub fn set(&mut self, loc: &Location, s: BoardSquare)
        requires
            old(self).wf(),
        ensures
            final(self).wf(),
            final(self)@ == old(self)@.update(loc_index(*loc), s),
    {
        let i = loc.0.index() * 8 + loc.1.index();
        self.squares[i] = s;
    }

    /// The occupied squares in row-major order, each as its raw `(rank, file)`
    /// index pair with the piece standing there; used by obstruction checking.
    pub fn get_coords(&self) -> (coords: Vec<((usize, usize), BoardPiece)>)
        requires
            self.wf(),
        ensures
            coords@ == coords_up_to(self@, 64),
    {
        let mut coords: Vec<((usize, usize), BoardPiece)> = Vec::new();
        let mut r: usize = 0;
        while r < 8
            invariant
                self.wf(),
                r <= 8,
                coords@ == coords_up_to(self@, r * 8),
            decreases 8 - r,
        {
            let mut f: usize = 0;
            while f < 8
                invariant
                    self.wf(),
                    r < 8,
                    f <= 8,
                    coords@ == coords_up_to(self@, r * 8 + f),
                decreases 8 - f,
            {
                if let Some(p) = self.get_idx(r, f) {
                    coords.push(((r, f), p));
                }
                proof {
                    assert((r * 8 + f) / 8 == r as int && (r * 8 + f) % 8 == f as int) by (nonlinear_arith)
                        requires r < 8 && f < 8;
                    assert(coords_up_to(self@, r * 8 + f + 1) =~= match self@[r * 8 + f] {
                        Some(p) => coords_up_to(self@, r * 8 + f).push(((r, f), p)),
                        None => coords_up_to(self@, r * 8 + f),
                    });
                }
                f += 1;
            }
            r += 1;
        }
        coords
    }
}

/// The occupied squares among the first `n` flat indices, in order, each as
/// its `(rank, file)` index pair with the piece standing there.
pub open spec fn coords_up_to(b: Seq<BoardSquare>, n: int) -> Seq<((usize, usize), BoardPiece)>
    decreases n,
{
    if n <= 0 {
        Seq::empty()
    } else {
        match b[n - 1] {
            Some(p) => coords_up_to(b, n - 1).push(((((n - 1) / 8) as usize, ((n - 1) % 8) as usize), p)),
            None => coords_up_to(b, n - 1),
        }
    }
}

impl Default for Board {
    /// The standard opening position with every piece ready to move.
    fn default() -> (b: Board)
        ensures
            is_starting_board(b@),
    {
        let mut squares: Vec<BoardSquare> = Vec::new();
        let mut r: usize = 0;
        while r < 8
            invariant
                r <= 8,
                squares@.len() == r * 8,
                forall|r2: int, f2: int|
                    0 <= r2 < r && 0 <= f2 < 8 ==> squares@[r2 * 8 + f2] == starting_square(r2, f2),
            decreases 8 - r,
        {
            let mut f: usize = 0;
            while f < 8
                invariant
                    r < 8,
                    f <= 8,
                    squares@.len() == r * 8 + f,
                    forall|r2: int, f2: int|
                        0 <= r2 < r && 0 <= f2 < 8 ==> squares@[r2 * 8 + f2] == starting_square(r2, f2),
                    forall|f2: int| 0 <= f2 < f ==> squares@[r * 8 + f2] == starting_square(r as int, f2),
                decreases 8 - f,
            {
                squares.push(starting_square_exec(r, f));
                f += 1;
            }
            r += 1;
        }
        Board { squares }
    }
}

/// Executable mirror of [`starting_square`].
fn starting_square_exec(r: usize, f: usize) -> (s: BoardSquare)
    requires
        r < 8,
        f < 8,
    ensures
        s == starting_square(r as int, f as int),
{
    if f == 0 {
        Some(BoardPiece { piece: back_row_piece_exec(r), color: PlayerColor::White, last_moved: 0, cooldown: 0 })
    } else if f == 1 {
        Some(BoardPiece { piece: ChessPiece::Pawn, color: PlayerColor::White, last_moved: 0, cooldown: 0 })
    } else if f == 6 {
        Some(BoardPiece { piece: ChessPiece::Pawn, color: PlayerColor::Black, last_moved: 0, cooldown: 0 })
    } else if f == 7 {
        Some(BoardPiece { piece: back_row_piece_exec(r), color: PlayerColor::Black, last_moved: 0, cooldown: 0 })
    } else {
        None
    }
}

/// Executable mirror of [`back_row_piece`].
fn back_row_piece_exec(r: usize) -> (p: ChessPiece)
    requires
        r < 8,
    ensures
        p == back_row_piece(r as int),
{
    if r == 0 || r == 7 {
        ChessPiece::R
    } else if r == 1 || r == 6 {
        ChessPiece::N
    } else if r == 2 || r == 5 {
        ChessPiece::B
    } else if r == 3 {
        ChessPiece::Q
    } else {
        ChessPiece::K
    }
}

} // verus!
