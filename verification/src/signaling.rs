//! The decisions of the signaling server: what a client message does to
//! the store and which messages go out to which rooms.
//!
//! The server's connection loop reads from the socket, hands each decoded
//! message to these functions, and performs the effects they return.
use vstd::prelude::*;
use crate::clock::{now, Timestamp};
use crate::error::TaimenError;
use crate::ids::new_id;
use crate::participant::{Participant, ParticipantId, ParticipantRole};
use crate::room::{Room, RoomId, RoomState, RoomView};
use crate::signal::{MuteKind, SignalMessage};
use crate::storage::{Store, StoreView};

verus! {

/// Something the connection loop must do after a decision.
#[derive(Debug, Clone)]
pub enum SignalEffect {
    /// Send a message to every connection of a room.
    Broadcast { room_id: RoomId, message: SignalMessage },
    /// Drop a room's broadcast channel.
    CloseChannel { room_id: RoomId },
}

/// The mute flags that a mute or unmute of `kind` sets: the audio flag for
/// audio, the video flag for video.
pub open spec fn mute_flags(kind: MuteKind, muted: bool) -> (Option<bool>, Option<bool>) {
    match kind {
        MuteKind::Audio => (Some(muted), None),
        MuteKind::Video => (None, Some(muted)),
    }
}

/// A participant's muted flag of `kind`: audio or video.
pub open spec fn muted(p: Participant, kind: MuteKind) -> bool {
    match kind {
        MuteKind::Audio => p.audio_muted,
        MuteKind::Video => p.video_muted,
    }
}

/// The muted flag of the other kind than `kind`.
pub open spec fn muted_other(p: Participant, kind: MuteKind) -> bool {
    match kind {
        MuteKind::Audio => p.video_muted,
        MuteKind::Video => p.audio_muted,
    }
}

/// Whether `pid` may moderate room `room_id`: by its record's role, or as
/// that room's host.
pub open spec fn is_moderator(s: StoreView, pid: ParticipantId, room_id: RoomId) -> bool {
    s.can_moderate(pid) || s.hosts(room_id, pid)
}

/// The store with a participant's mute flags set, if it has a record.
pub open spec fn after_mute(s: StoreView, pid: ParticipantId, kind: MuteKind, muted: bool) -> StoreView {
    if s.participants.contains_key(pid) {
        s.with_participant(s.participants[pid].with_mute(mute_flags(kind, muted).0, mute_flags(kind, muted).1))
    } else {
        s
    }
}

/// The store with a participant's raised-hand flag set to `raised`, if it
/// has a record.
pub open spec fn after_hand(s: StoreView, pid: ParticipantId, raised: bool) -> StoreView {
    if s.participants.contains_key(pid) {
        s.with_participant(s.participants[pid].with_hand(raised))
    } else {
        s
    }
}

/// The store with a participant's screen-sharing flag set, if it has a record.
pub open spec fn after_sharing(s: StoreView, pid: ParticipantId, sharing: bool) -> StoreView {
    if s.participants.contains_key(pid) {
        s.with_participant(s.participants[pid].with_sharing(sharing))
    } else {
        s
    }
}

/// What a message from `sender` in room `room_id` does to the store: control
/// messages update the named participant's record (a raised hand is raised,
/// a lowered hand lowered, whatever it was before); a kick by a moderator
/// or by the host of the sender's room removes the named participant from
/// that room; an end by a moderator or by the named room's host ends it; nothing else changes the store.
pub open spec fn after_signal(s: StoreView, room_id: RoomId, sender: ParticipantId, msg: SignalMessage) -> StoreView {
    match msg {
        SignalMessage::Mute { participant_id, kind } => after_mute(s, participant_id, kind, true),
        SignalMessage::Unmute { participant_id, kind } => after_mute(s, participant_id, kind, false),
        SignalMessage::RaiseHand { participant_id } => after_hand(s, participant_id, true),
        SignalMessage::LowerHand { participant_id } => after_hand(s, participant_id, false),
        SignalMessage::ScreenShare { participant_id } => after_sharing(s, participant_id, true),
        SignalMessage::StopScreenShare { participant_id } => after_sharing(s, participant_id, false),
        SignalMessage::Kick { participant_id, .. } => {
            if is_moderator(s, sender, room_id) && s.rooms.contains_key(room_id) {
                s.after_leave(room_id, participant_id)
            } else {
                s
            }
        },
        SignalMessage::EndRoom { room_id: ended } => {
            if is_moderator(s, sender, ended) && s.rooms.contains_key(ended) {
                s.after_end(ended)
            } else {
                s
            }
        },
        _ => s,
    }
}

/// What goes out after a message from `sender` in room `room_id`: joins and
/// leaves from clients are ignored; a kick or an end from anyone but a
/// moderator or the host of the room concerned is dropped; an accepted end
/// goes to the ended room,
/// whose channel is then closed; every other message is relayed to the room.
pub open spec fn signal_effects(s: StoreView, room_id: RoomId, sender: ParticipantId, msg: SignalMessage) -> Seq<SignalEffect> {
    match msg {
        SignalMessage::Join { .. } => Seq::empty(),
        SignalMessage::Leave { .. } => Seq::empty(),
        SignalMessage::Kick { .. } => {
            if is_moderator(s, sender, room_id) {
                seq![SignalEffect::Broadcast { room_id, message: msg }]
            } else {
                Seq::empty()
            }
        },
        SignalMessage::EndRoom { room_id: ended } => {
            if is_moderator(s, sender, ended) {
                seq![
                    SignalEffect::Broadcast { room_id: ended, message: msg },
                    SignalEffect::CloseChannel { room_id: ended },
                ]
            } else {
                Seq::empty()
            }
        },
        _ => seq![SignalEffect::Broadcast { room_id, message: msg }],
    }
}

/// Raises or lowers a participant's hand, if it has a record: the flag is
/// flipped only when it differs from `raised`.
fn set_hand(store: &mut Store, pid: ParticipantId, raised: bool)
    requires
        old(store)@.wf(),
    ensures
        final(store)@.wf(),
        final(store)@ == after_hand(old(store)@, pid, raised),
{
    match store.get_participant(&pid) {
        Some(p) => {
            if p.hand_raised != raised {
                let _ = store.toggle_hand(&pid);
            } else {
                proof {
                    let s = store@;
                    assert(s.participants[pid].with_hand(raised) == s.participants[pid]);
                    assert(s.with_participant(s.participants[pid].with_hand(raised)).participants =~= s.participants);
                }
            }
        },
        None => {},
    }
}

/// Handles one message that a connected participant sent: updates the
/// store and returns what must go out.
pub fn handle_signal(store: &mut Store, room_id: RoomId, sender_pid: ParticipantId, msg: SignalMessage) -> (effects: Vec<SignalEffect>)
    requires
        old(store)@.wf(),
    ensures
        final(store)@.wf(),
        final(store)@ == after_signal(old(store)@, room_id, sender_pid, msg),
        effects@ == signal_effects(old(store)@, room_id, sender_pid, msg),
        (msg matches SignalMessage::Mute { participant_id, kind } ==> (old(store)@.participants.contains_key(participant_id)
            ==> final(store)@.participants.contains_key(participant_id)
            && muted(final(store)@.participants[participant_id], kind)
            && muted_other(final(store)@.participants[participant_id], kind)
                == muted_other(old(store)@.participants[participant_id], kind))),
        (msg matches SignalMessage::Unmute { participant_id, kind } ==> (old(store)@.participants.contains_key(participant_id)
            ==> final(store)@.participants.contains_key(participant_id)
            && !muted(final(store)@.participants[participant_id], kind)
            && muted_other(final(store)@.participants[participant_id], kind)
                == muted_other(old(store)@.participants[participant_id], kind))),
        (msg is Mute || msg is Unmute) ==> effects@ == seq![SignalEffect::Broadcast { room_id, message: msg }],
{
    let ghost s = store@;
    let mut effects: Vec<SignalEffect> = Vec::new();
    match msg {
        SignalMessage::Join { .. } | SignalMessage::Leave { .. } => {},
        SignalMessage::Mute { participant_id, kind } => {
            let _ = match kind {
                MuteKind::Audio => store.set_mute(&participant_id, Some(true), None),
                MuteKind::Video => store.set_mute(&participant_id, None, Some(true)),
            };
            effects.push(SignalEffect::Broadcast { room_id, message: msg });
        },
        SignalMessage::Unmute { participant_id, kind } => {
            let _ = match kind {
                MuteKind::Audio => store.set_mute(&participant_id, Some(false), None),
                MuteKind::Video => store.set_mute(&participant_id, None, Some(false)),
            };
            effects.push(SignalEffect::Broadcast { room_id, message: msg });
        },
        SignalMessage::RaiseHand { participant_id } => {
            set_hand(store, participant_id, true);
            effects.push(SignalEffect::Broadcast { room_id, message: msg });
        },
        SignalMessage::LowerHand { participant_id } => {
            set_hand(store, participant_id, false);
            effects.push(SignalEffect::Broadcast { room_id, message: msg });
        },
        SignalMessage::ScreenShare { participant_id } => {
            let _ = store.set_screen_sharing(&participant_id, true);
            effects.push(SignalEffect::Broadcast { room_id, message: msg });
        },
        SignalMessage::StopScreenShare { participant_id } => {
            let _ = store.set_screen_sharing(&participant_id, false);
            effects.push(SignalEffect::Broadcast { room_id, message: msg });
        },
        SignalMessage::Kick { participant_id, .. } => {
            if store.can_moderate(&sender_pid) || store.is_host(&room_id, &sender_pid) {
                let _ = store.leave_room(&room_id, &participant_id);
                effects.push(SignalEffect::Broadcast { room_id, message: msg });
            }
        },
        SignalMessage::EndRoom { room_id: ended } => {
            if store.can_moderate(&sender_pid) || store.is_host(&ended, &sender_pid) {
                effects.push(SignalEffect::Broadcast { room_id: ended, message: msg });
                let _ = store.end_room(&ended);
                effects.push(SignalEffect::CloseChannel { room_id: ended });
            }
        },
        _ => {
            effects.push(SignalEffect::Broadcast { room_id, message: msg });
        },
    }
    proof {
        assert(effects@ =~= signal_effects(s, room_id, sender_pid, msg));
    }
    effects
}

/// Query parameters of the WebSocket endpoint.
#[derive(Debug, Clone)]
pub struct WsQuery {
    /// Display name for the participant.
    pub name: Option<String>,
    /// Optional auth token.
    pub token: Option<String>,
}

/// Who a new connection says it is: the room, participant and name of its
/// first message when that is a join, and otherwise the room of the path, a
/// fresh participant identifier and the name of the query (or "Anonymous").
pub fn join_target(first: Option<SignalMessage>, path_room_id: RoomId, query: WsQuery) -> (r: (RoomId, ParticipantId, String))
    ensures
        match first {
            Some(SignalMessage::Join { room_id, participant_id, display_name }) => r == (room_id, participant_id, display_name),
            _ => r.0 == path_room_id && r.2@ == match query.name {
                Some(name) => name@,
                None => "Anonymous"@,
            },
        },
{
    match first {
        Some(SignalMessage::Join { room_id, participant_id, display_name }) => (room_id, participant_id, display_name),
        _ => {
            let display_name = match query.name {
                Some(name) => name,
                None => "Anonymous".to_owned(),
            };
            let pid = new_id();
            (path_room_id, pid, display_name)
        },
    }
}

/// A connection that has joined a room.
pub struct Connection {
    /// The room it joined.
    pub room_id: RoomId,
    /// Its participant record.
    pub participant: Participant,
    /// The join to announce to the room.
    pub announce: SignalMessage,
}

/// Joins a new connection to its room: the room asked for, which is first
/// created as "Meeting", of at most 100 participants, hosted by the
/// connection's participant, when it is not stored. The connection joins as
/// a plain participant under a fresh user identifier; a refusal is the one
/// that [`Store::join_room`] gives.
pub fn connect(store: &mut Store, room_id: RoomId, participant_id: ParticipantId, display_name: String) -> (r: Result<Connection, TaimenError>)
    requires
        old(store)@.wf(),
    ensures
        final(store)@.wf(),
        old(store)@.rooms.contains_key(room_id) ==> {
            &&& r is Ok <==> old(store)@.rooms[room_id].state != RoomState::Ended && !old(store)@.rooms[room_id].full()
            &&& r is Err ==> final(store)@ == old(store)@
            &&& r matches Err(e) ==> if old(store)@.rooms[room_id].state == RoomState::Ended {
                e is Room && e.detail() == "room has ended"@
            } else {
                e is Capacity && e.detail() == old(store)@.rooms[room_id].full_detail()
            }
            &&& r matches Ok(c) ==> final(store)@ == old(store)@.after_join(room_id, c.participant)
        },
        !old(store)@.rooms.contains_key(room_id) ==> {
            &&& r is Ok
            &&& r matches Ok(c) ==> exists|created_at: Timestamp| final(store)@ == old(store)@.after_create(
                RoomView::fresh(room_id, "Meeting"@, participant_id, 100, created_at),
            ).after_join(room_id, c.participant)
        },
        r matches Ok(c) ==> c.room_id == room_id
            && c.participant.is_fresh(c.participant.user_id, display_name@, ParticipantRole::Participant)
            && c.announce == (SignalMessage::Join {
                room_id,
                participant_id: c.participant.id,
                display_name,
            }),
{
    if store.get_room(&room_id).is_none() {
        let room = Room::from_parts(room_id, "Meeting", participant_id, 100, now());
        let _ = store.add_room(room);
        proof {
            reveal_strlit("Meeting");
        }
    }
    let user_id = new_id();
    let participant = store.join_room(&room_id, user_id, display_name.as_str(), ParticipantRole::Participant)?;
    let pid = participant.id;
    Ok(Connection {
        room_id,
        participant,
        announce: SignalMessage::Join { room_id, participant_id: pid, display_name },
    })
}

/// Takes a connection out of its room: the participant leaves (if the room
/// is still stored), its leave is announced, and the room's channel is
/// closed when no listed participant remains.
pub fn disconnect(store: &mut Store, room_id: RoomId, participant_id: ParticipantId) -> (effects: Vec<SignalEffect>)
    requires
        old(store)@.wf(),
    ensures
        final(store)@.wf(),
        final(store)@ == if old(store)@.rooms.contains_key(room_id) {
            old(store)@.after_leave(room_id, participant_id)
        } else {
            old(store)@
        },
        effects@ == seq![SignalEffect::Broadcast { room_id, message: SignalMessage::Leave { room_id, participant_id } }]
            + if final(store)@.listed(room_id).len() == 0 {
            seq![SignalEffect::CloseChannel { room_id }]
        } else {
            Seq::empty()
        },
{
    let _ = store.leave_room(&room_id, &participant_id);
    let mut effects: Vec<SignalEffect> = Vec::new();
    effects.push(SignalEffect::Broadcast { room_id, message: SignalMessage::Leave { room_id, participant_id } });
    if store.list_participants(&room_id).len() == 0 {
        effects.push(SignalEffect::CloseChannel { room_id });
    }
    proof {
        assert(effects@ =~= seq![SignalEffect::Broadcast { room_id, message: SignalMessage::Leave { room_id, participant_id } }]
            + if store@.listed(room_id).len() == 0 {
            seq![SignalEffect::CloseChannel { room_id }]
        } else {
            Seq::empty()
        });
    }
    effects
}

/// Only a moderator or the room's host can kick from a room or end it: from
/// anyone else these messages change nothing and send nothing.
pub proof fn only_moderators_kick_or_end(s: StoreView, room_id: RoomId, sender: ParticipantId, msg: SignalMessage)
    requires
        match msg {
            SignalMessage::Kick { .. } => !is_moderator(s, sender, room_id),
            SignalMessage::EndRoom { room_id: ended } => !is_moderator(s, sender, ended),
            _ => false,
        },
    ensures
        after_signal(s, room_id, sender, msg) == s,
        signal_effects(s, room_id, sender, msg).len() == 0,
{
}

/// Negotiation and chat messages are relayed to the room unchanged and
/// leave the store as it was.
pub proof fn relays_change_nothing(s: StoreView, room_id: RoomId, sender: ParticipantId, msg: SignalMessage)
    requires
        msg is Offer || msg is Answer || msg is IceCandidate || msg is ChatMessage,
    ensures
        after_signal(s, room_id, sender, msg) == s,
        signal_effects(s, room_id, sender, msg) == seq![SignalEffect::Broadcast { room_id, message: msg }],
{
}

/// Raising a hand leaves it raised and lowering leaves it lowered, whatever
/// it was, and repeating either changes nothing more.
pub proof fn hand_messages_set_the_flag(s: StoreView, pid: ParticipantId, raised: bool)
    requires
        s.wf(),
        s.participants.contains_key(pid),
    ensures
        after_hand(s, pid, raised).participants[pid].hand_raised == raised,
        after_hand(after_hand(s, pid, raised), pid, raised) == after_hand(s, pid, raised),
{
    let t = after_hand(s, pid, raised);
    assert(t.participants[pid].with_hand(raised) == t.participants[pid]);
    assert(after_hand(t, pid, raised).participants =~= t.participants);
}

/// A mute of one kind sets that kind's flag, an unmute clears it, whatever
/// it was; the other kind's flag stays, and the message is relayed to the room.
pub proof fn mute_and_unmute_set_the_flag(
    s: StoreView,
    room_id: RoomId,
    sender: ParticipantId,
    pid: ParticipantId,
    kind: MuteKind,
)
    requires
        s.wf(),
        s.participants.contains_key(pid),
    ensures
        ({
            let m = SignalMessage::Mute { participant_id: pid, kind };
            let t = after_signal(s, room_id, sender, m);
            &&& t.participants.contains_key(pid)
            &&& muted(t.participants[pid], kind)
            &&& muted_other(t.participants[pid], kind) == muted_other(s.participants[pid], kind)
            &&& signal_effects(s, room_id, sender, m) == seq![SignalEffect::Broadcast { room_id, message: m }]
        }),
        ({
            let u = SignalMessage::Unmute { participant_id: pid, kind };
            let t = after_signal(s, room_id, sender, u);
            &&& t.participants.contains_key(pid)
            &&& !muted(t.participants[pid], kind)
            &&& muted_other(t.participants[pid], kind) == muted_other(s.participants[pid], kind)
            &&& signal_effects(s, room_id, sender, u) == seq![SignalEffect::Broadcast { room_id, message: u }]
        }),
{
}

} // verus!
