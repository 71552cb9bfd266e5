use std::sync::{Arc, Mutex};

use soushi::ScriptEngine;
use taimen::scripting::{ScriptAction, ScriptEvent, TaimenScripting};

fn make_engine() -> (TaimenScripting, Arc<Mutex<Vec<ScriptAction>>>) {
    let actions = Arc::new(Mutex::new(Vec::new()));
    let mut engine = ScriptEngine::new();
    engine.register_builtin_log();
    engine.register_builtin_env();
    engine.register_builtin_string();
    let tx = actions.clone();
    engine.register_fn("taimen_create_room", move |name: &str| {
        if let Ok(mut a) = tx.lock() {
            a.push(ScriptAction::CreateRoom(name.to_string()));
        }
    });
    let tx = actions.clone();
    engine.register_fn("taimen_end_room", move |id: &str| {
        if let Ok(mut a) = tx.lock() {
            a.push(ScriptAction::EndRoom(id.to_string()));
        }
    });
    let tx = actions.clone();
    engine.register_fn("taimen_list_rooms", move || -> String {
        if let Ok(mut a) = tx.lock() {
            a.push(ScriptAction::ListRooms);
        }
        String::new()
    });
    (TaimenScripting::new(engine), actions)
}

#[test]
fn create_room_function_queues_action() {
    let (engine, actions) = make_engine();
    engine.eval(r#"taimen_create_room("standup")"#).unwrap();
    let actions = actions.lock().unwrap();
    assert_eq!(actions[0], ScriptAction::CreateRoom("standup".to_string()));
}

#[test]
fn end_room_function_queues_action() {
    let (engine, actions) = make_engine();
    engine.eval(r#"taimen_end_room("room-123")"#).unwrap();
    let actions = actions.lock().unwrap();
    assert_eq!(actions[0], ScriptAction::EndRoom("room-123".to_string()));
}

#[test]
fn list_rooms_function_queues_action() {
    let (engine, actions) = make_engine();
    engine.eval("taimen_list_rooms()").unwrap();
    let actions = actions.lock().unwrap();
    assert_eq!(actions[0], ScriptAction::ListRooms);
}

#[test]
fn fire_event_with_no_hook_is_noop() {
    let (engine, _actions) = make_engine();
    engine.fire_event(&ScriptEvent::ServerStarted);
}

#[test]
fn fire_event_reports_what_ran() {
    let (mut engine, _actions) = make_engine();
    assert!(engine.fire_event(&ScriptEvent::ServerStarted).is_none());
    engine.register_hook("server_started", "1 + 1").unwrap();
    let run = engine.fire_event(&ScriptEvent::ServerStarted).unwrap();
    assert_eq!(run.source, "1 + 1");
    assert_eq!(run.outcome.unwrap().as_int().unwrap(), 2);
    engine.register_hook("room_ended", r#"throw "boom""#).unwrap();
    let run = engine.fire_event(&ScriptEvent::RoomEnded { room_id: "r".into() }).unwrap();
    assert!(run.outcome.is_err());
}

#[test]
fn register_and_fire_hook() {
    let (mut engine, actions) = make_engine();
    engine
        .register_hook("server_started", r#"taimen_create_room("lobby")"#)
        .unwrap();
    engine.fire_event(&ScriptEvent::ServerStarted);
    let actions = actions.lock().unwrap();
    assert_eq!(actions[0], ScriptAction::CreateRoom("lobby".to_string()));
}

#[test]
fn eval_arbitrary_script() {
    let (engine, _actions) = make_engine();
    let result = engine.eval("40 + 2").unwrap();
    assert_eq!(result.as_int().unwrap(), 42);
}

#[test]
fn hook_names_of_events() {
    let e = ScriptEvent::RoomCreated { room_id: "r".into(), name: "n".into() };
    assert_eq!(e.hook_name(), "room_created");
    assert_eq!(ScriptEvent::RoomEnded { room_id: "r".into() }.hook_name(), "room_ended");
    assert_eq!(ScriptEvent::ParticipantJoined { room_id: "r".into(), user: "u".into() }.hook_name(), "participant_joined");
    assert_eq!(ScriptEvent::ParticipantLeft { room_id: "r".into(), user: "u".into() }.hook_name(), "participant_left");
    assert_eq!(ScriptEvent::ServerStarted.hook_name(), "server_started");
}

#[test]
fn re_registering_replaces_hook() {
    let (mut engine, actions) = make_engine();
    engine.register_hook("room_ended", r#"taimen_create_room("first")"#).unwrap();
    engine.register_hook("room_ended", r#"taimen_create_room("second")"#).unwrap();
    assert!(engine.hook_for(&ScriptEvent::ServerStarted).is_none());
    let kept = engine.hook_for(&ScriptEvent::RoomEnded { room_id: "r".into() }).unwrap();
    assert_eq!(kept.source, r#"taimen_create_room("second")"#);
    engine.fire_event(&ScriptEvent::RoomEnded { room_id: "r".into() });
    let actions = actions.lock().unwrap();
    assert_eq!(actions.len(), 1);
    assert_eq!(actions[0], ScriptAction::CreateRoom("second".to_string()));
}

#[test]
fn bad_script_is_not_registered() {
    let (mut engine, _actions) = make_engine();
    assert!(engine.register_hook("server_started", "let = ;").is_err());
    assert!(engine.hook_for(&ScriptEvent::ServerStarted).is_none());
}
