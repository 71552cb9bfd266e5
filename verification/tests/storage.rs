use taimen::storage::Store;
use taimen::{ParticipantRole, RoomState, TaimenError};
use uuid::Uuid;

fn id() -> u128 {
    Uuid::new_v4().as_u128()
}

#[test]
fn create_and_get_room() {
    let mut store = Store::new();
    let host = id();
    let room = store.create_room("Test Room", host, 10);
    assert_eq!(room.name, "Test Room");
    assert_eq!(room.host_id, host);
    assert_eq!(room.state, RoomState::Waiting);

    let found = store.get_room(&room.id).unwrap();
    assert_eq!(found.id, room.id);
}

#[test]
fn list_rooms_excludes_ended() {
    let mut store = Store::new();
    let host = id();
    let r1 = store.create_room("Active", host, 10);
    let r2 = store.create_room("Ended", host, 10);
    store.set_room_state(&r2.id, RoomState::Ended).unwrap();

    let rooms = store.list_rooms();
    assert_eq!(rooms.len(), 1);
    assert_eq!(rooms[0].id, r1.id);
}

#[test]
fn join_and_leave_room() {
    let mut store = Store::new();
    let host = id();
    let room = store.create_room("Test", host, 10);

    let user2 = id();
    let p = store
        .join_room(&room.id, user2, "Bob", ParticipantRole::Participant)
        .unwrap();
    assert_eq!(p.display_name, "Bob");

    let participants = store.list_participants(&room.id);
    assert_eq!(participants.len(), 1); // Only Bob has a record (the host was not added via join_room)

    store.leave_room(&room.id, &p.id).unwrap();
    let participants = store.list_participants(&room.id);
    assert!(participants.is_empty());
}

#[test]
fn room_capacity_enforced() {
    let mut store = Store::new();
    let host = id();
    let room = store.create_room("Small", host, 2);

    let u2 = id();
    store
        .join_room(&room.id, u2, "User2", ParticipantRole::Participant)
        .unwrap();

    let u3 = id();
    let result = store.join_room(&room.id, u3, "User3", ParticipantRole::Participant);
    assert!(result.is_err());
}

#[test]
fn end_room_cleans_up() {
    let mut store = Store::new();
    let host = id();
    let room = store.create_room("Test", host, 10);

    let u2 = id();
    let p = store
        .join_room(&room.id, u2, "Bob", ParticipantRole::Participant)
        .unwrap();

    store.end_room(&room.id).unwrap();

    let ended_room = store.get_room(&room.id).unwrap();
    assert_eq!(ended_room.state, RoomState::Ended);
    assert!(store.get_participant(&p.id).is_none());
}

#[test]
fn mute_and_screen_share() {
    let mut store = Store::new();
    let host = id();
    let room = store.create_room("Test", host, 10);
    let u = id();
    let p = store
        .join_room(&room.id, u, "Alice", ParticipantRole::Participant)
        .unwrap();

    let updated = store.set_mute(&p.id, Some(true), None).unwrap();
    assert!(updated.audio_muted);
    assert!(!updated.video_muted);

    let updated = store.set_screen_sharing(&p.id, true).unwrap();
    assert!(updated.screen_sharing);
}

#[test]
fn recording_lifecycle() {
    let mut store = Store::new();
    let host = id();
    let room = store.create_room("Test", host, 10);

    let info = store.start_recording(&room.id, host).unwrap();
    assert!(info.active);

    let state = store.get_recording_state(&room.id).unwrap();
    assert!(state.active);

    let info = store.stop_recording(&room.id).unwrap();
    assert!(!info.active);
}

#[test]
fn can_moderate_check() {
    let mut store = Store::new();
    let host = id();
    let room = store.create_room("Test", host, 10);

    let u1 = id();
    let mod_p = store
        .join_room(&room.id, u1, "Mod", ParticipantRole::Moderator)
        .unwrap();
    assert!(store.can_moderate(&mod_p.id));

    let u2 = id();
    let viewer = store
        .join_room(&room.id, u2, "Viewer", ParticipantRole::Viewer)
        .unwrap();
    assert!(!store.can_moderate(&viewer.id));
}

#[test]
fn missing_room_errors_name_the_room() {
    let mut store = Store::new();
    let rid = 0xffff_0000_0000_0000_0000_0000_0000_0001u128;
    match store.set_room_state(&rid, RoomState::Active) {
        Err(TaimenError::Room(msg)) => {
            assert_eq!(msg, "room ffff0000-0000-0000-0000-000000000001 not found")
        }
        other => panic!("unexpected {other:?}"),
    }
    assert!(store.end_room(&rid).is_err());
    assert!(store.delete_room(&rid).is_err());
    assert!(store.leave_room(&rid, &1).is_err());
    assert!(store.start_recording(&rid, 1).is_err());
    assert!(store.get_room(&rid).is_none());
}

#[test]
fn join_ended_room_refused() {
    let mut store = Store::new();
    let room = store.create_room("R", id(), 10);
    store.set_room_state(&room.id, RoomState::Ended).unwrap();
    match store.join_room(&room.id, id(), "Late", ParticipantRole::Participant) {
        Err(TaimenError::Room(msg)) => assert_eq!(msg, "room has ended"),
        other => panic!("unexpected {other:?}"),
    }
}

#[test]
fn join_activates_waiting_room() {
    let mut store = Store::new();
    let room = store.create_room("R", id(), 10);
    let p = store.join_room(&room.id, id(), "A", ParticipantRole::Participant).unwrap();
    let now = store.get_room(&room.id).unwrap();
    assert_eq!(now.state, RoomState::Active);
    assert_eq!(now.participants, vec![room.host_id, p.id]);
}

#[test]
fn last_leave_ends_room() {
    let mut store = Store::new();
    let host = id();
    let room = store.create_room("R", host, 10);
    let p = store.join_room(&room.id, id(), "A", ParticipantRole::Participant).unwrap();
    store.leave_room(&room.id, &p.id).unwrap();
    assert_eq!(store.get_room(&room.id).unwrap().state, RoomState::Active);
    store.leave_room(&room.id, &host).unwrap();
    let now = store.get_room(&room.id).unwrap();
    assert_eq!(now.state, RoomState::Ended);
    assert!(now.participants.is_empty());
}

#[test]
fn delete_room_removes_it() {
    let mut store = Store::new();
    let room = store.create_room("R", id(), 10);
    store.delete_room(&room.id).unwrap();
    assert!(store.get_room(&room.id).is_none());
    assert!(store.list_rooms().is_empty());
}

#[test]
fn toggle_hand_in_store() {
    let mut store = Store::new();
    let room = store.create_room("R", id(), 10);
    let p = store.join_room(&room.id, id(), "A", ParticipantRole::Participant).unwrap();
    assert_eq!(store.toggle_hand(&p.id).unwrap(), true);
    assert_eq!(store.toggle_hand(&p.id).unwrap(), false);
    match store.toggle_hand(&1) {
        Err(TaimenError::Signal(msg)) => {
            assert_eq!(msg, "participant 00000000-0000-0000-0000-000000000001 not found")
        }
        other => panic!("unexpected {other:?}"),
    }
}

#[test]
fn set_mute_leaves_unnamed_flag() {
    let mut store = Store::new();
    let room = store.create_room("R", id(), 10);
    let p = store.join_room(&room.id, id(), "A", ParticipantRole::Participant).unwrap();
    store.set_mute(&p.id, Some(true), Some(true)).unwrap();
    let updated = store.set_mute(&p.id, None, Some(false)).unwrap();
    assert!(updated.audio_muted);
    assert!(!updated.video_muted);
    assert!(store.set_mute(&2, None, None).is_err());
}

#[test]
fn stop_without_recording_errors() {
    let mut store = Store::new();
    let room = store.create_room("R", id(), 10);
    match store.stop_recording(&room.id) {
        Err(TaimenError::Room(msg)) => assert_eq!(msg, "no active recording"),
        other => panic!("unexpected {other:?}"),
    }
    assert!(store.get_recording_state(&room.id).is_none());
}

#[test]
fn end_room_drops_recording() {
    let mut store = Store::new();
    let host = id();
    let room = store.create_room("R", host, 10);
    store.start_recording(&room.id, host).unwrap();
    store.end_room(&room.id).unwrap();
    assert!(store.get_recording_state(&room.id).is_none());
    assert!(store.get_room(&room.id).unwrap().participants.is_empty());
}

#[test]
fn default_store_is_empty() {
    let store = Store::default();
    assert!(store.list_rooms().is_empty());
    assert!(store.list_participants(&1).is_empty());
}
