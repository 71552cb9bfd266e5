use taimen::clock::Timestamp;
use taimen::{Room, RoomConfig, RoomState, TaimenError};
use uuid::Uuid;

#[test]
fn new_room_has_host_as_participant() {
    let host = Uuid::new_v4().as_u128();
    let room = Room::new("Daily standup", host, 10);
    assert_eq!(room.participants.len(), 1);
    assert_eq!(room.participants[0], host);
    assert_eq!(room.state, RoomState::Waiting);
}

#[test]
fn room_capacity_check() {
    let host = Uuid::new_v4().as_u128();
    let mut room = Room::new("Small room", host, 2);
    assert!(!room.is_full());

    let p2 = Uuid::new_v4().as_u128();
    room.add_participant(p2).unwrap();
    assert!(room.is_full());

    let p3 = Uuid::new_v4().as_u128();
    assert!(room.add_participant(p3).is_err());
}

#[test]
fn remove_participant() {
    let host = Uuid::new_v4().as_u128();
    let mut room = Room::new("Test", host, 10);
    let p2 = Uuid::new_v4().as_u128();
    room.add_participant(p2).unwrap();
    assert_eq!(room.participants.len(), 2);

    room.remove_participant(p2);
    assert_eq!(room.participants.len(), 1);
}

#[test]
fn default_room_config() {
    let cfg = RoomConfig::default();
    assert!(cfg.video_enabled);
    assert!(cfg.audio_enabled);
    assert!(cfg.screen_share_enabled);
    assert!(!cfg.recording_enabled);
    assert!(cfg.max_duration.is_none());
}

#[test]
fn capacity_error_names_room_and_counts() {
    let id = 0x0123_4567_89ab_cdef_0011_2233_4455_6677u128;
    let mut room = Room::from_parts(id, "Tiny", 1, 1, Timestamp { secs: 0, nanos: 0 });
    match room.add_participant(2) {
        Err(TaimenError::Capacity(msg)) => {
            assert_eq!(msg, "room 01234567-89ab-cdef-0011-223344556677 is full (1/1)");
        }
        other => panic!("expected a capacity error, got {other:?}"),
    }
    assert_eq!(room.participants, vec![1]);
}

#[test]
fn remove_strikes_every_occurrence_and_keeps_order() {
    let mut room = Room::from_parts(1, "R", 10, 10, Timestamp { secs: 0, nanos: 0 });
    room.participants = vec![10, 20, 30, 20, 40];
    room.remove_participant(20);
    assert_eq!(room.participants, vec![10, 30, 40]);
}

#[test]
fn add_then_remove_restores_members() {
    let mut room = Room::from_parts(1, "R", 10, 10, Timestamp { secs: 0, nanos: 0 });
    room.add_participant(11).unwrap();
    room.remove_participant(11);
    assert_eq!(room.participants, vec![10]);
}

#[test]
fn zero_capacity_room_is_full() {
    let room = Room::from_parts(3, "None", 10, 0, Timestamp { secs: 0, nanos: 0 });
    assert!(room.is_full());
}

#[test]
fn from_parts_builds_waiting_room() {
    let room = Room::from_parts(42, "Name", 7, 5, Timestamp { secs: 99, nanos: 1 });
    assert_eq!(room.id, 42);
    assert_eq!(room.name, "Name");
    assert_eq!(room.host_id, 7);
    assert_eq!(room.max_participants, 5);
    assert_eq!(room.created_at, Timestamp { secs: 99, nanos: 1 });
    assert_eq!(room.state, RoomState::Waiting);
    assert_eq!(room.participants, vec![7]);
}
