//! Room CRUD, participant listing, and recording control endpoints.
use vstd::prelude::*;
use crate::clock::Timestamp;
use crate::error::TaimenError;
use crate::participant::ParticipantId;
use crate::room::{Room, RoomId, RoomState, RoomView};
use crate::signal::SignalMessage;
use crate::signaling::SignalEffect;
use crate::storage::{room_missing, RecordingInfo, Store, StoreView};

verus! {

/// HTTP status: the request was malformed.
pub const BAD_REQUEST: u16 = 400;

/// HTTP status: the room (or its recording) does not exist.
pub const NOT_FOUND: u16 = 404;

/// The maximum participant count of a room when the request names none.
pub fn default_max_participants() -> (n: usize)
    ensures
        n == 100,
{
    100
}

/// Room response (public view).
#[derive(Debug, Clone)]
pub struct RoomResponse {
    pub id: RoomId,
    pub name: String,
    pub host_id: ParticipantId,
    pub participant_count: usize,
    pub max_participants: usize,
    pub state: RoomState,
    /// Creation time.
    pub created_at: Timestamp,
}

impl RoomResponse {
    /// Whether the response describes `room`: its fields, with the member
    /// list reduced to its length.
    pub open spec fn describes(self, room: RoomView) -> bool {
        &&& self.id == room.id
        &&& self.name@ == room.name
        &&& self.host_id == room.host_id
        &&& self.participant_count == room.participants.len()
        &&& self.max_participants == room.max_participants
        &&& self.state == room.state
        &&& self.created_at == room.created_at
    }

    /// The public view of a room.
    pub fn from_room(room: &Room) -> (r: RoomResponse)
        ensures
            r.describes(room@),
    {
        RoomResponse {
            id: room.id,
            name: room.name.clone(),
            host_id: room.host_id,
            participant_count: room.participants.len(),
            max_participants: room.max_participants,
            state: room.state,
            created_at: room.created_at,
        }
    }
}

/// An error answer: an HTTP status and the text of the `error` field.
#[derive(Debug, Clone)]
pub struct ApiError {
    pub status: u16,
    pub message: String,
}

/// The not-found answer for a store error, carrying the error's message.
fn not_found(e: TaimenError) -> (r: ApiError)
    ensures
        r.status == NOT_FOUND,
        r.message@ == e.prefix() + e.detail(),
{
    ApiError { status: NOT_FOUND, message: e.message() }
}

/// The text of the not-found answer for a room that is not stored.
pub open spec fn missing_room_message(id: RoomId) -> Seq<char> {
    "room error: "@ + room_missing(id)
}

/// `POST /api/v1/rooms`: creates a room hosted by `host_id`; a request with
/// an empty name is refused with 400 and the store left as it was.
pub fn create_room(store: &mut Store, name: &str, max_participants: usize, host_id: ParticipantId) -> (r: Result<RoomResponse, ApiError>)
    requires
        old(store)@.wf(),
    ensures
        final(store)@.wf(),
        r is Err <==> name@.len() == 0,
        r matches Err(e) ==> e.status == BAD_REQUEST && e.message@ == "room name required"@
            && final(store)@ == old(store)@,
        r matches Ok(resp) ==> {
            let room = RoomView::fresh(resp.id, name@, host_id, max_participants, resp.created_at);
            &&& resp.describes(room)
            &&& final(store)@ == old(store)@.after_create(room)
        },
{
    if name.is_empty() {
        return Err(ApiError { status: BAD_REQUEST, message: "room name required".to_owned() });
    }
    let room = store.create_room(name, host_id, max_participants);
    Ok(RoomResponse::from_room(&room))
}

/// `GET /api/v1/rooms`: every room that has not ended, each once.
pub fn list_rooms(store: &Store) -> (r: Vec<RoomResponse>)
    requires
        store@.wf(),
    ensures
        forall|i: int| 0 <= i < r.len() ==> {
            &&& store@.rooms.contains_key(#[trigger] r[i].id)
            &&& r[i].describes(store@.rooms[r[i].id])
            &&& r[i].state != RoomState::Ended
        },
        forall|k: RoomId| #[trigger] store@.rooms.contains_key(k) && store@.rooms[k].state != RoomState::Ended
            ==> exists|i: int| 0 <= i < r.len() && #[trigger] r[i].id == k,
        forall|i: int, j: int| 0 <= i < j < r.len() ==> #[trigger] r[i].id != #[trigger] r[j].id,
{
    let rooms = store.list_rooms();
    let mut out: Vec<RoomResponse> = Vec::new();
    let mut i: usize = 0;
    while i < rooms.len()
        invariant
            0 <= i <= rooms.len(),
            out.len() == i,
            forall|m: int| 0 <= m < i ==> #[trigger] out[m].describes(rooms[m]@),
        decreases rooms.len() - i,
    {
        out.push(RoomResponse::from_room(&rooms[i]));
        i = i + 1;
    }
    proof {
        assert forall|k: RoomId| #[trigger] store@.rooms.contains_key(k) && store@.rooms[k].state != RoomState::Ended
            implies exists|i: int| 0 <= i < out.len() && #[trigger] out[i].id == k by {
            let m = choose|m: int| 0 <= m < rooms.len() && #[trigger] rooms[m].id == k;
            assert(out[m].describes(rooms[m]@));
        }
        assert forall|a: int, b: int| 0 <= a < b < out.len() implies #[trigger] out[a].id != #[trigger] out[b].id by {
            assert(out[a].describes(rooms[a]@));
            assert(out[b].describes(rooms[b]@));
        }
        assert forall|m: int| 0 <= m < out.len() implies {
            &&& store@.rooms.contains_key(#[trigger] out[m].id)
            &&& out[m].describes(store@.rooms[out[m].id])
            &&& out[m].state != RoomState::Ended
        } by {
            assert(out[m].describes(rooms[m]@));
            assert(store@.rooms.contains_key(rooms[m].id));
        }
    }
    out
}

/// `GET /api/v1/rooms/{room_id}`: the room, or 404 "room not found".
pub fn get_room(store: &Store, room_id: RoomId) -> (r: Result<RoomResponse, ApiError>)
    ensures
        r is Err <==> !store@.rooms.contains_key(room_id),
        r matches Err(e) ==> e.status == NOT_FOUND && e.message@ == "room not found"@,
        r matches Ok(resp) ==> resp.describes(store@.rooms[room_id]),
{
    match store.get_room(&room_id) {
        Some(room) => Ok(RoomResponse::from_room(&room)),
        None => Err(ApiError { status: NOT_FOUND, message: "room not found".to_owned() }),
    }
}

/// `DELETE /api/v1/rooms/{room_id}`: ends and removes the room, or 404.
/// On success the room's channel is to be closed.
pub fn delete_room(store: &mut Store, room_id: RoomId) -> (r: (Result<(), ApiError>, Vec<SignalEffect>))
    requires
        old(store)@.wf(),
    ensures
        final(store)@.wf(),
        r.0 is Err <==> !old(store)@.rooms.contains_key(room_id),
        r.0 matches Err(e) ==> e.status == NOT_FOUND && e.message@ == missing_room_message(room_id)
            && final(store)@ == old(store)@,
        r.0 is Ok ==> final(store)@ == old(store)@.after_delete(room_id),
        r.1@ == if r.0 is Ok {
            seq![SignalEffect::CloseChannel { room_id }]
        } else {
            Seq::empty()
        },
{
    let mut effects: Vec<SignalEffect> = Vec::new();
    match store.delete_room(&room_id) {
        Ok(()) => {
            effects.push(SignalEffect::CloseChannel { room_id });
            proof {
                assert(effects@ =~= seq![SignalEffect::CloseChannel { room_id }]);
            }
            (Ok(()), effects)
        },
        Err(e) => {
            proof {
                assert(effects@ =~= Seq::empty());
            }
            (Err(not_found(e)), effects)
        },
    }
}

/// `POST /api/v1/rooms/{room_id}/end`: announces the end to the room, then
/// ends the room, or answers 404; on success the room's channel is to be
/// closed.
pub fn end_room(store: &mut Store, room_id: RoomId) -> (r: (Result<(), ApiError>, Vec<SignalEffect>))
    requires
        old(store)@.wf(),
    ensures
        final(store)@.wf(),
        r.0 is Err <==> !old(store)@.rooms.contains_key(room_id),
        r.0 matches Err(e) ==> e.status == NOT_FOUND && e.message@ == missing_room_message(room_id)
            && final(store)@ == old(store)@,
        r.0 is Ok ==> final(store)@ == old(store)@.after_end(room_id),
        r.1@ == seq![SignalEffect::Broadcast { room_id, message: SignalMessage::EndRoom { room_id } }]
            + if r.0 is Ok {
            seq![SignalEffect::CloseChannel { room_id }]
        } else {
            Seq::empty()
        },
{
    let mut effects: Vec<SignalEffect> = Vec::new();
    effects.push(SignalEffect::Broadcast { room_id, message: SignalMessage::EndRoom { room_id } });
    let ghost announced = effects@;
    match store.end_room(&room_id) {
        Ok(()) => {
            effects.push(SignalEffect::CloseChannel { room_id });
            proof {
                assert(effects@ =~= announced + seq![SignalEffect::CloseChannel { room_id }]);
            }
            (Ok(()), effects)
        },
        Err(e) => {
            proof {
                assert(effects@ =~= announced + Seq::empty());
            }
            (Err(not_found(e)), effects)
        },
    }
}

/// `POST /api/v1/rooms/{room_id}/recording/start`: starts recording, or 404.
pub fn start_recording(store: &mut Store, room_id: RoomId, started_by: ParticipantId) -> (r: Result<RecordingInfo, ApiError>)
    requires
        old(store)@.wf(),
    ensures
        final(store)@.wf(),
        r is Err <==> !old(store)@.rooms.contains_key(room_id),
        r matches Err(e) ==> e.status == NOT_FOUND && e.message@ == missing_room_message(room_id)
            && final(store)@ == old(store)@,
        r matches Ok(info) ==> info.active && info.started_by == Some(started_by) && info.started_at is Some
            && final(store)@ == old(store)@.with_recording(room_id, info),
{
    match store.start_recording(&room_id, started_by) {
        Ok(info) => Ok(info),
        Err(e) => Err(not_found(e)),
    }
}

/// `POST /api/v1/rooms/{room_id}/recording/stop`: stops recording, or 404
/// when the room has no recording state.
pub fn stop_recording(store: &mut Store, room_id: RoomId) -> (r: Result<RecordingInfo, ApiError>)
    requires
        old(store)@.wf(),
    ensures
        final(store)@.wf(),
        r is Err <==> !old(store)@.recordings.contains_key(room_id),
        r matches Err(e) ==> e.status == NOT_FOUND && e.message@ == "room error: "@ + "no active recording"@
            && final(store)@ == old(store)@,
        r matches Ok(info) ==> info == (RecordingInfo { active: false, ..old(store)@.recordings[room_id] })
            && final(store)@ == old(store)@.with_recording(room_id, info),
{
    match store.stop_recording(&room_id) {
        Ok(info) => Ok(info),
        Err(e) => Err(not_found(e)),
    }
}

/// `GET /api/v1/rooms/{room_id}/recording`: the recording state, or 404
/// "no recording state".
pub fn get_recording_state(store: &Store, room_id: RoomId) -> (r: Result<RecordingInfo, ApiError>)
    ensures
        r is Err <==> !store@.recordings.contains_key(room_id),
        r matches Err(e) ==> e.status == NOT_FOUND && e.message@ == "no recording state"@,
        r matches Ok(info) ==> info == store@.recordings[room_id],
{
    match store.get_recording_state(&room_id) {
        Some(info) => Ok(info),
        None => Err(ApiError { status: NOT_FOUND, message: "no recording state".to_owned() }),
    }
}

/// `PUT /api/v1/rooms/{room_id}/state`: sets the room's state, or 404.
pub fn set_room_state(store: &mut Store, room_id: RoomId, state: RoomState) -> (r: Result<RoomResponse, ApiError>)
    requires
        old(store)@.wf(),
    ensures
        final(store)@.wf(),
        r is Err <==> !old(store)@.rooms.contains_key(room_id),
        r matches Err(e) ==> e.status == NOT_FOUND && e.message@ == missing_room_message(room_id)
            && final(store)@ == old(store)@,
        r matches Ok(resp) ==> final(store)@ == old(store)@.with_room_state(room_id, state)
            && resp.describes(final(store)@.rooms[room_id]),
{
    match store.set_room_state(&room_id, state) {
        Ok(room) => Ok(RoomResponse::from_room(&room)),
        Err(e) => Err(not_found(e)),
    }
}

} // verus!
