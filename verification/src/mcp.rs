//! The administration tools' room settings: what a create-room request
//! asks for once its omitted options take their defaults.
use vstd::prelude::*;

verus! {

/// The settings a create-room request asks for.
#[derive(Debug, Clone, Copy)]
pub struct RequestedRoomConfig {
    pub max_participants: usize,
    pub enable_waiting_room: bool,
    pub enable_recording: bool,
    pub enable_chat: bool,
    pub has_password: bool,
}

/// Fills in the options a create-room request left out: 100 participants,
/// no waiting room, no recording, chat on; a password counts if given.
pub fn requested_room_config(
    max_participants: Option<usize>,
    enable_waiting_room: Option<bool>,
    enable_recording: Option<bool>,
    enable_chat: Option<bool>,
    password: &Option<String>,
) -> (c: RequestedRoomConfig)
    ensures
        c.max_participants == match max_participants {
            Some(n) => n,
            None => 100,
        },
        c.enable_waiting_room == match enable_waiting_room {
            Some(b) => b,
            None => false,
        },
        c.enable_recording == match enable_recording {
            Some(b) => b,
            None => false,
        },
        c.enable_chat == match enable_chat {
            Some(b) => b,
            None => true,
        },
        c.has_password == password.is_some(),
{
    RequestedRoomConfig {
        max_participants: match max_participants {
            Some(n) => n,
            None => 100,
        },
        enable_waiting_room: match enable_waiting_room {
            Some(b) => b,
            None => false,
        },
        enable_recording: match enable_recording {
            Some(b) => b,
            None => false,
        },
        enable_chat: match enable_chat {
            Some(b) => b,
            None => true,
        },
        has_password: password.is_some(),
    }
}

} // verus!
