//! Typed messages exchanged between client and server, and the logical
//! channels they travel on.
//!
//! Encoding to and from bytes, and the transport itself, live outside this
//! crate: the dispatcher in [`crate::session`] consumes and produces these
//! values directly.

use vstd::prelude::*;
use vstd::string::StringExecFns;
use crate::geometry::{Rank, File, Location};
use crate::board::PlayerColor;

verus! {

/// A room's identity: a four-character code, displayed dash-joined.
pub type RoomID = [char; 4];

/// A player's display name.
pub type UserName = String;

/// Relies on alloc's `String::push`: appends the given char to the end of
/// the string.
pub assume_specification[ String::push ](s: &mut String, c: char)
    ensures
        final(s)@ == old(s)@.push(c),
;

/// Whether two room ids are the same four-character code.
pub fn room_id_eq(a: &RoomID, b: &RoomID) -> (r: bool)
    ensures
        r == (a@ == b@),
{
    let r = a[0] == b[0] && a[1] == b[1] && a[2] == b[2] && a[3] == b[3];
    proof {
        if r {
            assert(a@ =~= b@);
        }
    }
    r
}

/// The dash-joined rendering of a room id, e.g. `A-B-C-D`.
pub open spec fn room_id_display(id: Seq<char>) -> Seq<char> {
    seq![id[0], '-', id[1], '-', id[2], '-', id[3]]
}

/// Render a room id for display, dash-joined.
pub fn display_room_id(id: &RoomID) -> (s: String)
    ensures
        s@ == room_id_display(id@),
{
    let mut s = String::new();
    s.push(id[0]);
    s.push('-');
    s.push(id[1]);
    s.push('-');
    s.push(id[2]);
    s.push('-');
    s.push(id[3]);
    proof {
        assert(s@ =~= room_id_display(id@));
    }
    s
}

/// In-game requests a client sends on its Game channel.
#[derive(Debug, Clone, Copy)]
pub enum ClientInGameMessage {
    Move { from: (Rank, File), to: (Rank, File) },
}

/// Room-management requests a client sends on its System channel.
#[derive(Debug, Clone, Copy)]
pub enum ClientSystemMessage {
    StartRoom(RoomID),
    JoinRoom(RoomID),
    ListRooms,
}

/// A piece's pending cooldown at a position, as reported to clients.
#[derive(Debug, Clone, Copy)]
pub struct Cooldown {
    pub pos: Location,
    pub time_left: u64,
}

/// Messages the server sends on its InRoom channel.
#[derive(Debug, Clone)]
pub enum ServerInRoomMessage {
    /// The server is waiting for another player to join the game.
    WaitingForPlayers,
    /// A player requested to join.
    RoomJoinRequest(UserName),
    /// A player successfully joined the room.
    PlayerJoined(UserName),
}

/// Messages the server sends on its InGame channel.
#[derive(Debug)]
pub enum ServerInGameMessage {
    /// The move was received and made successfully.
    MoveRecv {
        player: PlayerColor,
        from: Location,
        to: Location,
        capture: bool,
        cooldown: u64,
    },
    /// The piece can't move like that; carries the reason the move was
    /// invalid.
    InvalidMove(String),
    /// A player captured the king.
    Victory(PlayerColor),
    Draw,
    OpponentDisconect,
}

/// Messages the server sends on its System channel.
#[derive(Debug, Clone)]
pub enum ServerSystemMessage {
    /// The rooms available to join.
    ListRooms(Vec<RoomID>),
    /// Miscellaneous error.
    Error(String),
    /// Notifies a client that they joined a room.
    JoinedRoom(RoomID),
    /// Notifies a client that they left a room.
    LeftRoom(RoomID),
}

impl Clone for ServerInGameMessage {
    /// An equal message; reason strings keep their characters.
    fn clone(&self) -> (r: Self)
        ensures
            match (self, &r) {
                (ServerInGameMessage::InvalidMove(a), ServerInGameMessage::InvalidMove(b)) => a@ == b@,
                _ => r == *self,
            },
    {
        match self {
            ServerInGameMessage::MoveRecv { player, from, to, capture, cooldown } =>
                ServerInGameMessage::MoveRecv {
                    player: *player,
                    from: *from,
                    to: *to,
                    capture: *capture,
                    cooldown: *cooldown,
                },
            ServerInGameMessage::InvalidMove(s) => ServerInGameMessage::InvalidMove(s.clone()),
            ServerInGameMessage::Victory(c) => ServerInGameMessage::Victory(*c),
            ServerInGameMessage::Draw => ServerInGameMessage::Draw,
            ServerInGameMessage::OpponentDisconect => ServerInGameMessage::OpponentDisconect,
        }
    }
}

/// The client's outbound channels.
#[derive(Debug, Clone, Copy, PartialEq, Eq, Structural)]
pub enum ClientChannel {
    Game,
    System,
}

/// The server's outbound channels.
#[derive(Debug, Clone, Copy, PartialEq, Eq, Structural)]
pub enum ServerChannel {
    InGame,
    InRoom,
    System,
}

impl ClientChannel {
    /// The wire identifier of this channel.
    pub open spec fn channel_id_spec(self) -> u8 {
        match self {
            ClientChannel::System => 0u8,
            ClientChannel::Game => 1u8,
        }
    }

    pub fn channel_id(self) -> (id: u8)
        ensures
            id == self.channel_id_spec(),
    {
        match self {
            ClientChannel::System => 0,
            ClientChannel::Game => 1,
        }
    }
}

impl ServerChannel {
    /// The wire identifier of this channel.
    pub open spec fn channel_id_spec(self) -> u8 {
        match self {
            ServerChannel::System => 0u8,
            ServerChannel::InGame => 1u8,
            ServerChannel::InRoom => 2u8,
        }
    }

    pub fn channel_id(self) -> (id: u8)
        ensures
            id == self.channel_id_spec(),
    {
        match self {
            ServerChannel::System => 0,
            ServerChannel::InGame => 1,
            ServerChannel::InRoom => 2,
        }
    }
}

} // verus!
