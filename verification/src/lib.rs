//! Authoritative logic of a real-time chess variant: pieces move
//! independently, gated by per-piece cooldowns instead of alternating turns.
//!
//! The crate is organised bottom-up: [`geometry`] gives coordinates and move
//! vectors, [`board`] the 8x8 grid of occupants, [`room`] one match and its
//! move-legality engine, [`session`] the directory of connected players and
//! the per-message dispatcher, and [`protocol`] the typed messages exchanged
//! with clients. Transport, encoding and rendering live outside this crate;
//! every function here is pure logic over plain values.

use vstd::prelude::*;

pub mod board;
pub mod geometry;
pub mod protocol;
pub mod room;
pub mod session;

verus! {

/// Protocol identifier shared by client and server transports.
pub const PROTOCOL_ID: u64 = 7;

} // verus!
