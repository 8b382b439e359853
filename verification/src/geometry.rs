//! Coordinates and move geometry for the 8x8 board.
//!
//! Ranks and files are ordinal enumerations convertible to array indices.
//! A move's geometry is a `Slope` (rise/run in grid units) together with its
//! squared Euclidean magnitude; every legal chess shape is decided by exact
//! integer comparisons on these, so no floating point is needed.

use vstd::prelude::*;

verus! {

/// One of the eight ranks (columns A through H) of the board.
#[derive(Debug, Clone, Copy, PartialEq, Eq, Structural)]
pub enum Rank {
    A,
    B,
    C,
    D,
    E,
    F,
    G,
    H,
}

/// One of the eight files (rows One through Eight) of the board.
#[derive(Debug, Clone, Copy, PartialEq, Eq, Structural)]
pub enum File {
    One,
    Two,
    Three,
    Four,
    Five,
    Six,
    Seven,
    Eight,
}

/// A square of the board: a rank paired with a file.
pub type Location = (Rank, File);

impl Rank {
    /// The array index of this rank, 0 through 7.
    pub open spec fn index_spec(self) -> int {
        match self {
            Rank::A => 0,
            Rank::B => 1,
            Rank::C => 2,
            Rank::D => 3,
            Rank::E => 4,
            Rank::F => 5,
            Rank::G => 6,
            Rank::H => 7,
        }
    }

    pub fn index(self) -> (i: usize)
        ensures
            i == self.index_spec(),
    {
        match self {
            Rank::A => 0,
            Rank::B => 1,
            Rank::C => 2,
            Rank::D => 3,
            Rank::E => 4,
            Rank::F => 5,
            Rank::G => 6,
            Rank::H => 7,
        }
    }
}

impl File {
    /// The array index of this file, 0 through 7.
    pub open spec fn index_spec(self) -> int {
        match self {
            File::One => 0,
            File::Two => 1,
            File::Three => 2,
            File::Four => 3,
            File::Five => 4,
            File::Six => 5,
            File::Seven => 6,
            File::Eight => 7,
        }
    }

    pub fn index(self) -> (i: usize)
        ensures
            i == self.index_spec(),
    {
        match self {
            File::One => 0,
            File::Two => 1,
            File::Three => 2,
            File::Four => 3,
            File::Five => 4,
            File::Six => 5,
            File::Seven => 6,
            File::Eight => 7,
        }
    }
}

/// The flat index of a location in a row-major board array of 64 squares.
pub open spec fn loc_index(loc: Location) -> int {
    loc.0.index_spec() * 8 + loc.1.index_spec()
}

/// Distinct locations sit at distinct flat indices.
pub proof fn lemma_loc_index_injective(a: Location, c: Location)
    ensures
        loc_index(a) == loc_index(c) ==> a == c,
{
}

/// A directional vector between two locations, in grid units.
///
/// `run` is the rank delta (destination minus source) and `rise` is the
/// file delta, so a white pawn stepping forward has `run == 0, rise > 0`.
#[derive(Debug, Clone, Copy, PartialEq, Eq, Structural)]
pub struct Slope {
    pub rise: i32,
    pub run: i32,
}

impl Slope {
    /// The compass angle of this slope, in degrees, when the direction is one
    /// of the eight straight or diagonal rays; `None` otherwise.
    ///
    /// Angle 0 points toward increasing ranks, 90 toward increasing files
    /// (White's forward direction), 180 and 270 the opposites, and the four
    /// diagonals lie at 45, 135, 225 and 315.
    pub open spec fn degrees_spec(self) -> Option<u16> {
        if self.run == 0 && self.rise > 0 {
            Some(90u16)
        } else if self.run == 0 && self.rise < 0 {
            Some(270u16)
        } else if self.rise == 0 && self.run > 0 {
            Some(0u16)
        } else if self.rise == 0 && self.run < 0 {
            Some(180u16)
        } else if self.run > 0 && self.rise == self.run {
            Some(45u16)
        } else if self.run < 0 && self.rise == -self.run {
            Some(135u16)
        } else if self.run < 0 && self.rise == self.run {
            Some(225u16)
        } else if self.run > 0 && self.rise == -self.run {
            Some(315u16)
        } else {
            None
        }
    }

    /// Classify this slope as one of the eight compass angles, if it is one.
    pub fn to_degrees(&self) -> (d: Option<u16>)
        requires
            -8 < self.rise < 8,
            -8 < self.run < 8,
        ensures
            d == self.degrees_spec(),
    {
        if self.run == 0 && self.rise > 0 {
            Some(90)
        } else if self.run == 0 && self.rise < 0 {
            Some(270)
        } else if self.rise == 0 && self.run > 0 {
            Some(0)
        } else if self.rise == 0 && self.run < 0 {
            Some(180)
        } else if self.run > 0 && self.rise == self.run {
            Some(45)
        } else if self.run < 0 && self.rise == -self.run {
            Some(135)
        } else if self.run < 0 && self.rise == self.run {
            Some(225)
        } else if self.run > 0 && self.rise == -self.run {
            Some(315)
        } else {
            None
        }
    }
}

/// The squared Euclidean magnitude of a slope.
pub open spec fn mag_sq_spec(s: Slope) -> int {
    s.rise * s.rise + s.run * s.run
}

/// The slope of the move from `from` to `to`.
pub open spec fn slope_spec(from: Location, to: Location) -> Slope {
    Slope {
        rise: (to.1.index_spec() - from.1.index_spec()) as i32,
        run: (to.0.index_spec() - from.0.index_spec()) as i32,
    }
}

} // verus!
