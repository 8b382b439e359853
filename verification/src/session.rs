//! The session layer: the directory of connected players and their room
//! memberships, the rooms of the running matches, and the per-message
//! dispatcher that routes decoded protocol messages to them.
//!
//! The dispatcher is pure logic from plain values to plain values: the caller
//! drains its transport, decodes each inbound message, hands it here together
//! with the current monotonic time, and sends the returned reply on the
//! channel the reply names.

use vstd::prelude::*;
use vstd::string::StringExecFns;
use std::collections::HashMap;
use crate::board::{Board, PlayerColor};
use crate::protocol::{
    RoomID, ClientSystemMessage, ClientInGameMessage, ServerSystemMessage, ServerInGameMessage,
    room_id_eq,
};
use crate::room::{
    Room, spec_next_board, spec_player_after, spec_move_reject, spec_new_cooldown, capture_spec,
};

verus! {

/// The cooldown, in milliseconds, assigned to every newly connected player.
pub const DEFAULT_PLAYER_COOLDOWN_MS: u64 = 5000;

/// A connected player: their connection id, assigned color, and the cooldown
/// duration (milliseconds) their next accepted move will stamp on the piece.
#[derive(Debug, Clone, Copy, PartialEq, Eq, Structural)]
pub struct Player {
    pub id: u64,
    pub color: PlayerColor,
    pub cooldown: u64,
}

/// The directory of connected players and their current room memberships.
/// Each connection id maps to at most one room id at a time.
#[derive(Debug)]
pub struct ServerLobby {
    pub players: HashMap<u64, Player>,
    pub room_mem: HashMap<u64, RoomID>,
}

impl Default for ServerLobby {
    /// An empty lobby.
    fn default() -> (r: ServerLobby)
        ensures
            r.players@ == Map::<u64, Player>::empty(),
            r.room_mem@ == Map::<u64, RoomID>::empty(),
    {
        ServerLobby { players: HashMap::new(), room_mem: HashMap::new() }
    }
}

/// A reply from the game-message dispatcher, tagged with the server channel
/// it travels on.
#[derive(Debug)]
pub enum DispatchReply {
    InGame(ServerInGameMessage),
    System(ServerSystemMessage),
}

/// Whether some room in the sequence carries this id.
pub open spec fn has_room(rooms: Seq<Room>, id: RoomID) -> bool {
    exists|i: int| 0 <= i < rooms.len() && (#[trigger] rooms[i]).id@ == id@
}

/// The index of the room carrying this id; meaningful when the ids are
/// unique and some room has the id.
pub open spec fn room_index_of(rooms: Seq<Room>, id: RoomID) -> int {
    choose|i: int| 0 <= i < rooms.len() && (#[trigger] rooms[i]).id@ == id@
}

/// The session manager: every room of a running match, plus the lobby. One
/// of these is owned by the single dispatching worker; exactly one message is
/// resolved at a time, so no state is shared mid-resolution.
#[derive(Debug)]
pub struct SessionManager {
    pub lobby: ServerLobby,
    pub rooms: Vec<Room>,
}

impl SessionManager {
    /// Room ids are unique among currently existing rooms, and every board
    /// is well formed.
    pub open spec fn wf(&self) -> bool {
        &&& forall|i: int, j: int|
            0 <= i < j < self.rooms@.len()
                ==> (#[trigger] self.rooms@[i]).id@ != (#[trigger] self.rooms@[j]).id@
        &&& forall|i: int| 0 <= i < self.rooms@.len() ==> (#[trigger] self.rooms@[i]).board.wf()
    }

    /// A manager with no players, no memberships and no rooms.
    pub fn new() -> (r: SessionManager)
        ensures
            r.wf(),
            r.lobby.players@ == Map::<u64, Player>::empty(),
            r.lobby.room_mem@ == Map::<u64, RoomID>::empty(),
            r.rooms@.len() == 0,
    {
        SessionManager { lobby: ServerLobby::default(), rooms: Vec::new() }
    }

    /// A client connected: allocate its player entry with the default color
    /// and the default cooldown. The default assignment is uniform — every
    /// connection gets White — preserved as-is; a caller with its own
    /// color-assignment policy uses [`Self::client_connected_as`] instead.
    pub fn client_connected(&mut self, client_id: u64)
        requires
            old(self).wf(),
        ensures
            final(self).wf(),
            final(self).lobby.players@ == old(self).lobby.players@.insert(
                client_id,
                Player { id: client_id, color: PlayerColor::White, cooldown: DEFAULT_PLAYER_COOLDOWN_MS },
            ),
            final(self).lobby.room_mem@ == old(self).lobby.room_mem@,
            final(self).rooms@ == old(self).rooms@,
    {
        self.client_connected_as(client_id, PlayerColor::White, DEFAULT_PLAYER_COOLDOWN_MS);
    }

    /// The seam for a color and cooldown assignment policy: allocate the
    /// connecting client's player entry with the given color and cooldown.
    pub fn client_connected_as(&mut self, client_id: u64, color: PlayerColor, cooldown: u64)
        requires
            old(self).wf(),
        ensures
            final(self).wf(),
            final(self).lobby.players@ == old(self).lobby.players@.insert(
                client_id,
                Player { id: client_id, color, cooldown },
            ),
            final(self).lobby.room_mem@ == old(self).lobby.room_mem@,
            final(self).rooms@ == old(self).rooms@,
    {
        self.lobby.players.insert(client_id, Player { id: client_id, color, cooldown });
    }

    /// Close a room: drop it from the directory, so room growth can be
    /// bounded. Memberships pointing at the closed room become stale; a move
    /// from such a member gets no reply until the member joins another room.
    pub fn close_room(&mut self, id: &RoomID) -> (closed: bool)
        requires
            old(self).wf(),
        ensures
            final(self).wf(),
            final(self).lobby.players@ == old(self).lobby.players@,
            final(self).lobby.room_mem@ == old(self).lobby.room_mem@,
            closed == has_room(old(self).rooms@, *id),
            final(self).rooms@ == if has_room(old(self).rooms@, *id) {
                old(self).rooms@.remove(room_index_of(old(self).rooms@, *id))
            } else {
                old(self).rooms@
            },
    {
        match self.find_room(id) {
            Some(i) => {
                proof {
                    let chosen = room_index_of(self.rooms@, *id);
                    assert(0 <= chosen < self.rooms@.len() && self.rooms@[chosen].id@ == id@);
                    if chosen != i {
                        assert(self.rooms@[chosen].id@ != self.rooms@[i as int].id@);
                    }
                }
                self.rooms.remove(i);
                true
            },
            None => false,
        }
    }

    /// A client disconnected: drop its player entry, and with it its room
    /// membership.
    pub fn client_disconnected(&mut self, client_id: u64)
        requires
            old(self).wf(),
        ensures
            final(self).wf(),
            final(self).rooms@ == old(self).rooms@,
            final(self).lobby.players@ == old(self).lobby.players@.remove(client_id),
            final(self).lobby.room_mem@ == if old(self).lobby.players@.contains_key(client_id) {
                old(self).lobby.room_mem@.remove(client_id)
            } else {
                old(self).lobby.room_mem@
            },
    {
        if self.lobby.players.remove(&client_id).is_some() {
            self.lobby.room_mem.remove(&client_id);
        }
    }

    /// The index of the room carrying `id`, if any.
    fn find_room(&self, id: &RoomID) -> (r: Option<usize>)
        ensures
            match r {
                Some(i) => i < self.rooms@.len() && self.rooms@[i as int].id@ == id@,
                None => !has_room(self.rooms@, *id),
            },
    {
        let mut i: usize = 0;
        while i < self.rooms.len()
            invariant
                i <= self.rooms@.len(),
                forall|j: int| 0 <= j < i ==> (#[trigger] self.rooms@[j]).id@ != id@,
            decreases self.rooms@.len() - i,
        {
            if room_id_eq(&self.rooms[i].id, id) {
                return Some(i);
            }
            i += 1;
        }
        None
    }

    /// Resolve one System-channel message: list the rooms, start a room, or
    /// join one. Returns the reply to send back on the System channel, if the
    /// message has one.
    pub fn handle_system_message(&mut self, client_id: u64, msg: &ClientSystemMessage) -> (resp: Option<ServerSystemMessage>)
        requires
            old(self).wf(),
        ensures
            final(self).wf(),
            final(self).lobby.players@ == old(self).lobby.players@,
            match *msg {
                ClientSystemMessage::ListRooms => {
                    &&& *final(self) == *old(self)
                    &&& resp matches Some(ServerSystemMessage::ListRooms(ids))
                        && ids@.len() == old(self).rooms@.len()
                        && (forall|i: int| 0 <= i < ids@.len() ==> ids@[i] == (#[trigger] old(self).rooms@[i]).id)
                },
                ClientSystemMessage::StartRoom(key) => {
                    if old(self).lobby.players@.contains_key(client_id)
                        && !old(self).lobby.room_mem@.contains_key(client_id) {
                        if !has_room(old(self).rooms@, key) {
                            &&& final(self).rooms@.len() == old(self).rooms@.len() + 1
                            &&& (forall|i: int| 0 <= i < old(self).rooms@.len()
                                ==> final(self).rooms@[i] == old(self).rooms@[i])
                            &&& final(self).rooms@.last().id == key
                            &&& crate::board::is_starting_board(final(self).rooms@.last().board@)
                            &&& final(self).lobby.room_mem@ == old(self).lobby.room_mem@.insert(client_id, key)
                            &&& resp matches Some(ServerSystemMessage::JoinedRoom(k)) && k@ == key@
                        } else {
                            &&& *final(self) == *old(self)
                            &&& resp matches Some(ServerSystemMessage::Error(s))
                                && s@ == "that room key already exists. try a different one."@
                        }
                    } else {
                        &&& *final(self) == *old(self)
                        &&& resp matches Some(ServerSystemMessage::Error(s))
                            && s@ == "you are already in a room. please leave the room before trying to start a new one."@
                    }
                },
                ClientSystemMessage::JoinRoom(key) => {
                    if has_room(old(self).rooms@, key)
                        && !old(self).lobby.room_mem@.contains_key(client_id) {
                        &&& final(self).rooms@ == old(self).rooms@
                        &&& final(self).lobby.room_mem@ == old(self).lobby.room_mem@.insert(client_id, key)
                        &&& resp is None
                    } else {
                        &&& *final(self) == *old(self)
                        &&& resp matches Some(ServerSystemMessage::Error(s))
                            && s@ == (if !has_room(old(self).rooms@, key) {
                                "that room doen't exist"@
                            } else {
                                "you're already in a room"@
                            })
                    }
                },
            },
    {
        match msg {
            ClientSystemMessage::ListRooms => {
                let mut ids: Vec<RoomID> = Vec::new();
                let mut i: usize = 0;
                while i < self.rooms.len()
                    invariant
                        i <= self.rooms@.len(),
                        ids@.len() == i,
                        forall|j: int| 0 <= j < i ==> ids@[j] == (#[trigger] self.rooms@[j]).id,
                    decreases self.rooms@.len() - i,
                {
                    ids.push(self.rooms[i].id);
                    i += 1;
                }
                Some(ServerSystemMessage::ListRooms(ids))
            },
            ClientSystemMessage::StartRoom(room_key) => {
                let member = self.lobby.room_mem.contains_key(&client_id);
                let known = self.lobby.players.contains_key(&client_id);
                if known && !member {
                    if self.find_room(room_key).is_none() {
                        self.rooms.push(Room { id: *room_key, board: Board::default() });
                        self.lobby.room_mem.insert(client_id, *room_key);
                        Some(ServerSystemMessage::JoinedRoom(*room_key))
                    } else {
                        Some(ServerSystemMessage::Error(String::from_str(
                            "that room key already exists. try a different one.",
                        )))
                    }
                } else {
                    Some(ServerSystemMessage::Error(String::from_str(
                        "you are already in a room. please leave the room before trying to start a new one.",
                    )))
                }
            },
            ClientSystemMessage::JoinRoom(room_key) => {
                let room_exists = self.find_room(room_key).is_some();
                let member = self.lobby.room_mem.contains_key(&client_id);
                if room_exists && !member {
                    self.lobby.room_mem.insert(client_id, *room_key);
                    None
                } else if !room_exists {
                    Some(ServerSystemMessage::Error(String::from_str("that room doen't exist")))
                } else {
                    Some(ServerSystemMessage::Error(String::from_str("you're already in a room")))
                }
            },
        }
    }

    /// Resolve one Game-channel message: look up the sender's membership and
    /// player entry, run the move through the room's legality engine at time
    /// `now`, and return the reply with the channel it travels on. A sender
    /// with no membership or no player entry gets a System-channel error; a
    /// membership pointing at no existing room produces no reply.
    pub fn handle_game_message(&mut self, client_id: u64, msg: &ClientInGameMessage, now: u64) -> (resp: Option<DispatchReply>)
        requires
            old(self).wf(),
        ensures
            final(self).wf(),
            final(self).lobby.room_mem@ == old(self).lobby.room_mem@,
            ({
                let ClientInGameMessage::Move { from, to } = *msg;
                if !old(self).lobby.room_mem@.contains_key(client_id) {
                    &&& *final(self) == *old(self)
                    &&& resp matches Some(DispatchReply::System(ServerSystemMessage::Error(s)))
                        && s@ == "you're not in a room. join/start on first"@
                } else if !old(self).lobby.players@.contains_key(client_id) {
                    &&& *final(self) == *old(self)
                    &&& resp matches Some(DispatchReply::System(ServerSystemMessage::Error(s)))
                        && s@ == "that room has closed. the game ended."@
                } else if !has_room(old(self).rooms@, old(self).lobby.room_mem@[client_id]) {
                    &&& *final(self) == *old(self)
                    &&& resp is None
                } else {
                    let idx = room_index_of(old(self).rooms@, old(self).lobby.room_mem@[client_id]);
                    let b = old(self).rooms@[idx].board@;
                    let p = old(self).lobby.players@[client_id];
                    &&& final(self).lobby.players@ == old(self).lobby.players@.insert(
                        client_id,
                        spec_player_after(b, p, from, to, now),
                    )
                    &&& final(self).rooms@.len() == old(self).rooms@.len()
                    &&& (forall|j: int| 0 <= j < old(self).rooms@.len() && j != idx
                        ==> final(self).rooms@[j] == old(self).rooms@[j])
                    &&& final(self).rooms@[idx].id == old(self).rooms@[idx].id
                    &&& final(self).rooms@[idx].board@ == spec_next_board(b, p, from, to, now)
                    &&& match spec_move_reject(b, p.color, from, to, now) {
                        Some(e) => resp matches Some(DispatchReply::InGame(ServerInGameMessage::InvalidMove(s)))
                            && s@ == e.message_spec(),
                        None => resp matches Some(DispatchReply::InGame(m))
                            && m == (ServerInGameMessage::MoveRecv {
                                player: p.color,
                                from,
                                to,
                                capture: capture_spec(b, p.color, to),
                                cooldown: spec_new_cooldown(b, p, from, to, now),
                            }),
                    }
                }
            }),
    {
        let ClientInGameMessage::Move { from, to } = *msg;
        let rid = match self.lobby.room_mem.get(&client_id) {
            Some(r) => *r,
            None => {
                return Some(DispatchReply::System(ServerSystemMessage::Error(
                    String::from_str("you're not in a room. join/start on first"),
                )));
            },
        };
        let mut player = match self.lobby.players.get(&client_id) {
            Some(p) => *p,
            None => {
                return Some(DispatchReply::System(ServerSystemMessage::Error(
                    String::from_str("that room has closed. the game ended."),
                )));
            },
        };
        let idx = match self.find_room(&rid) {
            Some(i) => i,
            None => {
                return None;
            },
        };
        proof {
            // room ids are unique, so the index found is the index chosen by
            // the spec
            let chosen = room_index_of(self.rooms@, rid);
            assert(0 <= chosen < self.rooms@.len() && self.rooms@[chosen].id@ == rid@);
            if chosen != idx {
                assert(self.rooms@[chosen].id@ != self.rooms@[idx as int].id@);
            }
        }
        let room = &mut self.rooms[idx];
        let m = room.make_move_for(&mut player, from, to, now);
        self.lobby.players.insert(client_id, player);
        Some(DispatchReply::InGame(m))
    }
}

} // verus!
