use taimen::api::rooms::{
    create_room, default_max_participants, delete_room, end_room, get_recording_state, get_room,
    list_rooms, set_room_state, start_recording, stop_recording, RoomResponse, BAD_REQUEST,
    NOT_FOUND,
};
use taimen::clock::Timestamp;
use taimen::signal::SignalMessage;
use taimen::signaling::SignalEffect;
use taimen::storage::Store;
use taimen::{Room, RoomState};

#[test]
fn create_room_validates_name() {
    let mut store = Store::new();
    let err = create_room(&mut store, "", 10, 1).unwrap_err();
    assert_eq!(err.status, BAD_REQUEST);
    assert_eq!(err.status, 400);
    assert_eq!(err.message, "room name required");
    assert!(list_rooms(&store).is_empty());

    let resp = create_room(&mut store, "Standup", default_max_participants(), 1).unwrap();
    assert_eq!(resp.name, "Standup");
    assert_eq!(resp.participant_count, 1);
    assert_eq!(resp.max_participants, 100);
    assert_eq!(resp.state, RoomState::Waiting);
    assert_eq!(get_room(&store, resp.id).unwrap().id, resp.id);
}

#[test]
fn missing_room_answers() {
    let mut store = Store::new();
    let err = get_room(&store, 3).unwrap_err();
    assert_eq!((err.status, err.message.as_str()), (NOT_FOUND, "room not found"));
    let (result, effects) = delete_room(&mut store, 3);
    assert!(effects.is_empty());
    let err = result.unwrap_err();
    assert_eq!(err.status, 404);
    assert_eq!(err.message, "room error: room 00000000-0000-0000-0000-000000000003 not found");
    let (result, effects) = end_room(&mut store, 3);
    assert!(result.is_err());
    assert_eq!(effects.len(), 1);
    assert!(matches!(effects[0], SignalEffect::Broadcast { room_id: 3, message: SignalMessage::EndRoom { room_id: 3 } }));
    assert!(set_room_state(&mut store, 3, RoomState::Active).is_err());
    assert!(start_recording(&mut store, 3, 1).is_err());
    let err = stop_recording(&mut store, 3).unwrap_err();
    assert_eq!(err.message, "room error: no active recording");
    let err = get_recording_state(&store, 3).unwrap_err();
    assert_eq!(err.message, "no recording state");
}

#[test]
fn room_lifecycle_through_api() {
    let mut store = Store::new();
    let resp = create_room(&mut store, "R", 5, 1).unwrap();
    let set = set_room_state(&mut store, resp.id, RoomState::Active).unwrap();
    assert_eq!(set.state, RoomState::Active);
    start_recording(&mut store, resp.id, 1).unwrap();
    assert!(get_recording_state(&store, resp.id).unwrap().active);
    assert!(!stop_recording(&mut store, resp.id).unwrap().active);
    let (result, effects) = end_room(&mut store, resp.id);
    result.unwrap();
    assert_eq!(effects.len(), 2);
    assert!(matches!(effects[1], SignalEffect::CloseChannel { room_id } if room_id == resp.id));
    assert!(list_rooms(&store).is_empty());
    let (result, effects) = delete_room(&mut store, resp.id);
    result.unwrap();
    assert!(matches!(effects[..], [SignalEffect::CloseChannel { room_id }] if room_id == resp.id));
    assert!(get_room(&store, resp.id).is_err());
}

#[test]
fn response_describes_room() {
    let mut room = Room::from_parts(9, "N", 2, 4, Timestamp { secs: 123, nanos: 5 });
    room.participants.push(3);
    let r = RoomResponse::from_room(&room);
    assert_eq!((r.id, r.host_id, r.participant_count, r.max_participants, r.created_at), (9, 2, 2, 4, Timestamp { secs: 123, nanos: 5 }));
    assert_eq!(r.name, "N");
}
