//! Tests of room-id display, id comparison and channel numbering.

use real_time_chess::geometry::{File, Rank, Slope};
use real_time_chess::protocol::{display_room_id, room_id_eq, ClientChannel, ServerChannel};
use real_time_chess::PROTOCOL_ID;

#[test]
fn room_id_displays_dash_joined() {
    assert_eq!(display_room_id(&['A', 'B', 'C', 'D']), "A-B-C-D");
    assert_eq!(display_room_id(&['7', '7', '0', 'q']), "7-7-0-q");
}

#[test]
fn room_id_equality_is_by_characters() {
    assert!(room_id_eq(&['a', 'b', 'c', 'd'], &['a', 'b', 'c', 'd']));
    assert!(!room_id_eq(&['a', 'b', 'c', 'd'], &['a', 'b', 'c', 'e']));
    assert!(!room_id_eq(&['a', 'b', 'c', 'd'], &['d', 'c', 'b', 'a']));
}

#[test]
fn channel_ids_match_the_wire_numbering() {
    assert_eq!(ClientChannel::System.channel_id(), 0);
    assert_eq!(ClientChannel::Game.channel_id(), 1);
    assert_eq!(ServerChannel::System.channel_id(), 0);
    assert_eq!(ServerChannel::InGame.channel_id(), 1);
    assert_eq!(ServerChannel::InRoom.channel_id(), 2);
    assert_eq!(PROTOCOL_ID, 7);
}

#[test]
fn slope_degrees_classify_the_eight_compass_directions() {
    assert_eq!(Slope { rise: 3, run: 0 }.to_degrees(), Some(90));
    assert_eq!(Slope { rise: -2, run: 0 }.to_degrees(), Some(270));
    assert_eq!(Slope { rise: 0, run: 4 }.to_degrees(), Some(0));
    assert_eq!(Slope { rise: 0, run: -1 }.to_degrees(), Some(180));
    assert_eq!(Slope { rise: 2, run: 2 }.to_degrees(), Some(45));
    assert_eq!(Slope { rise: 3, run: -3 }.to_degrees(), Some(135));
    assert_eq!(Slope { rise: -5, run: -5 }.to_degrees(), Some(225));
    assert_eq!(Slope { rise: -1, run: 1 }.to_degrees(), Some(315));
    assert_eq!(Slope { rise: 2, run: 1 }.to_degrees(), None);
    assert_eq!(Slope { rise: 0, run: 0 }.to_degrees(), None);
}

#[test]
fn rank_and_file_indices_are_ordinal() {
    assert_eq!(Rank::A.index(), 0);
    assert_eq!(Rank::H.index(), 7);
    assert_eq!(File::One.index(), 0);
    assert_eq!(File::Eight.index(), 7);
}
