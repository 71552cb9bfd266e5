use taimen::signal::MuteKind;
use taimen::signaling::{connect, disconnect, handle_signal, join_target, SignalEffect, WsQuery};
use taimen::storage::Store;
use taimen::{ParticipantRole, RoomState, SignalMessage};

fn broadcast_room(e: &SignalEffect) -> Option<u128> {
    match e {
        SignalEffect::Broadcast { room_id, .. } => Some(*room_id),
        SignalEffect::CloseChannel { .. } => None,
    }
}

#[test]
fn join_target_uses_join_message() {
    let first = SignalMessage::Join { room_id: 5, participant_id: 6, display_name: "Ann".into() };
    let (r, p, n) = join_target(Some(first), 9, WsQuery { name: Some("Query".into()), token: None });
    assert_eq!((r, p, n.as_str()), (5, 6, "Ann"));
}

#[test]
fn join_target_falls_back_to_query() {
    let (r, _p, n) = join_target(None, 9, WsQuery { name: Some("Query".into()), token: None });
    assert_eq!((r, n.as_str()), (9, "Query"));
    let (r, _p, n) = join_target(Some(SignalMessage::EndRoom { room_id: 1 }), 9, WsQuery { name: None, token: Some("t".into()) });
    assert_eq!((r, n.as_str()), (9, "Anonymous"));
}

#[test]
fn connect_creates_missing_room() {
    let mut store = Store::new();
    let c = connect(&mut store, 77, 8, "Ann".into()).unwrap();
    assert_eq!(c.room_id, 77);
    let room = store.get_room(&77).unwrap();
    assert_eq!(room.name, "Meeting");
    assert_eq!(room.host_id, 8);
    assert_eq!(room.max_participants, 100);
    assert_eq!(room.state, RoomState::Active);
    assert_eq!(c.participant.role, ParticipantRole::Participant);
    match c.announce {
        SignalMessage::Join { room_id, participant_id, display_name } => {
            assert_eq!(room_id, c.room_id);
            assert_eq!(participant_id, c.participant.id);
            assert_eq!(display_name, "Ann");
        }
        other => panic!("unexpected {other:?}"),
    }
}

#[test]
fn connect_joins_existing_room_and_disconnect_closes() {
    let mut store = Store::new();
    let room = store.create_room("R", 1, 10);
    let c = connect(&mut store, room.id, 2, "Bo".into()).unwrap();
    assert_eq!(c.room_id, room.id);
    let effects = disconnect(&mut store, room.id, c.participant.id);
    assert_eq!(effects.len(), 2);
    assert!(matches!(effects[0], SignalEffect::Broadcast { message: SignalMessage::Leave { .. }, .. }));
    assert!(matches!(effects[1], SignalEffect::CloseChannel { room_id } if room_id == room.id));
}

#[test]
fn connect_refused_when_full() {
    let mut store = Store::new();
    let room = store.create_room("R", 1, 1);
    assert!(connect(&mut store, room.id, 2, "Bo".into()).is_err());
}

#[test]
fn relay_and_control_messages() {
    let mut store = Store::new();
    let room = store.create_room("R", 1, 10);
    let p = store.join_room(&room.id, 3, "P", ParticipantRole::Participant).unwrap();

    let effects = handle_signal(&mut store, room.id, p.id, SignalMessage::Offer { from: 1, to: 2, sdp: "v=0".into() });
    assert_eq!(effects.len(), 1);
    assert_eq!(broadcast_room(&effects[0]), Some(room.id));

    handle_signal(&mut store, room.id, p.id, SignalMessage::Mute { participant_id: p.id, kind: MuteKind::Video });
    let rec = store.get_participant(&p.id).unwrap();
    assert!(rec.video_muted && !rec.audio_muted);

    handle_signal(&mut store, room.id, p.id, SignalMessage::LowerHand { participant_id: p.id });
    assert!(!store.get_participant(&p.id).unwrap().hand_raised);
    handle_signal(&mut store, room.id, p.id, SignalMessage::RaiseHand { participant_id: p.id });
    assert!(store.get_participant(&p.id).unwrap().hand_raised);
    handle_signal(&mut store, room.id, p.id, SignalMessage::RaiseHand { participant_id: p.id });
    assert!(store.get_participant(&p.id).unwrap().hand_raised);
    handle_signal(&mut store, room.id, p.id, SignalMessage::LowerHand { participant_id: p.id });
    assert!(!store.get_participant(&p.id).unwrap().hand_raised);

    handle_signal(&mut store, room.id, p.id, SignalMessage::ScreenShare { participant_id: p.id });
    assert!(store.get_participant(&p.id).unwrap().screen_sharing);

    let effects = handle_signal(&mut store, room.id, p.id, SignalMessage::Leave { room_id: room.id, participant_id: p.id });
    assert!(effects.is_empty());
}

#[test]
fn only_moderators_kick_and_end() {
    let mut store = Store::new();
    let room = store.create_room("R", 1, 10);
    let plain = store.join_room(&room.id, 3, "P", ParticipantRole::Participant).unwrap();
    let moderator = store.join_room(&room.id, 4, "M", ParticipantRole::Moderator).unwrap();

    let effects = handle_signal(&mut store, room.id, plain.id, SignalMessage::Kick { participant_id: moderator.id, reason: None });
    assert!(effects.is_empty());
    assert!(store.get_participant(&moderator.id).is_some());

    let effects = handle_signal(&mut store, room.id, moderator.id, SignalMessage::Kick { participant_id: plain.id, reason: Some("disruptive".into()) });
    assert_eq!(effects.len(), 1);
    assert!(store.get_participant(&plain.id).is_none());

    let effects = handle_signal(&mut store, room.id, moderator.id, SignalMessage::EndRoom { room_id: room.id });
    assert_eq!(effects.len(), 2);
    assert!(matches!(effects[1], SignalEffect::CloseChannel { room_id } if room_id == room.id));
    assert_eq!(store.get_room(&room.id).unwrap().state, RoomState::Ended);
}

#[test]
fn second_connection_reaches_same_room() {
    let mut store = Store::new();
    let a = connect(&mut store, 500, 1, "A".into()).unwrap();
    let b = connect(&mut store, 500, 2, "B".into()).unwrap();
    assert_eq!(a.room_id, 500);
    assert_eq!(b.room_id, 500);
    let room = store.get_room(&500).unwrap();
    assert_eq!(room.participants, vec![1, a.participant.id, b.participant.id]);
    assert_eq!(store.list_rooms().len(), 1);
}

#[test]
fn connect_to_ended_room_gives_join_error() {
    let mut store = Store::new();
    let room = store.create_room("R", 1, 10);
    store.set_room_state(&room.id, RoomState::Ended).unwrap();
    match connect(&mut store, room.id, 2, "B".into()) {
        Err(e) => assert_eq!(e.message(), "room error: room has ended"),
        Ok(_) => panic!("joined an ended room"),
    }
}

#[test]
fn room_host_may_end_room() {
    let mut store = Store::new();
    let room = store.create_room("R", 42, 10);
    assert!(store.is_host(&room.id, &42));
    assert!(!store.can_moderate(&42));
    let effects = handle_signal(&mut store, room.id, 42, SignalMessage::EndRoom { room_id: room.id });
    assert_eq!(effects.len(), 2);
    assert_eq!(store.get_room(&room.id).unwrap().state, RoomState::Ended);
}

#[test]
fn host_of_one_room_cannot_end_another() {
    let mut store = Store::new();
    let a = store.create_room("A", 1, 10);
    let b = store.create_room("B", 2, 10);
    let effects = handle_signal(&mut store, b.id, 2, SignalMessage::EndRoom { room_id: a.id });
    assert!(effects.is_empty());
    assert_eq!(store.get_room(&a.id).unwrap().state, RoomState::Waiting);
    let p = store.join_room(&a.id, 9, "P", ParticipantRole::Participant).unwrap();
    let effects = handle_signal(&mut store, a.id, 2, SignalMessage::Kick { participant_id: p.id, reason: None });
    assert!(effects.is_empty());
    assert!(store.get_participant(&p.id).is_some());
    let effects = handle_signal(&mut store, a.id, 1, SignalMessage::Kick { participant_id: p.id, reason: None });
    assert_eq!(effects.len(), 1);
    assert!(store.get_participant(&p.id).is_none());
}
