//! Rooms: capacity, membership and lifecycle state.
use vstd::prelude::*;
use crate::clock::{now, Span, Timestamp};
use crate::error::TaimenError;
use crate::ids::{id_text, new_id, VERSION_VARIANT_BITS, VERSION_VARIANT_MASK};
use crate::participant::ParticipantId;
use crate::text::{count_text, decimal, uuid_text};

verus! {

/// Unique identifier for a room.
pub type RoomId = u128;

/// A video-conferencing room.
#[derive(Debug, Clone)]
pub struct Room {
    /// Unique room identifier.
    pub id: RoomId,
    /// Human-readable room name.
    pub name: String,
    /// The participant who created / hosts the room.
    pub host_id: ParticipantId,
    /// Currently joined participants.
    pub participants: Vec<ParticipantId>,
    /// Maximum number of participants allowed.
    pub max_participants: usize,
    /// When the room was created.
    pub created_at: Timestamp,
    /// Room-level configuration.
    pub config: RoomConfig,
    /// Current lifecycle state.
    pub state: RoomState,
}

/// What a room is, with its name and members as mathematical sequences.
pub struct RoomView {
    pub id: RoomId,
    pub name: Seq<char>,
    pub host_id: ParticipantId,
    pub participants: Seq<ParticipantId>,
    pub max_participants: usize,
    pub created_at: Timestamp,
    pub config: RoomConfig,
    pub state: RoomState,
}

impl View for Room {
    type V = RoomView;

    open spec fn view(&self) -> RoomView {
        RoomView {
            id: self.id,
            name: self.name@,
            host_id: self.host_id,
            participants: self.participants@,
            max_participants: self.max_participants,
            created_at: self.created_at,
            config: self.config,
            state: self.state,
        }
    }
}

/// The test that keeps every identifier but `id`.
pub open spec fn other_than(id: ParticipantId) -> spec_fn(ParticipantId) -> bool {
    |p: ParticipantId| p != id
}

impl RoomView {
    /// A newly created room: waiting, default configuration, and the host as
    /// its only participant.
    pub open spec fn fresh(
        id: RoomId,
        name: Seq<char>,
        host_id: ParticipantId,
        max_participants: usize,
        created_at: Timestamp,
    ) -> RoomView {
        RoomView {
            id,
            name,
            host_id,
            participants: seq![host_id],
            max_participants,
            created_at,
            config: RoomConfig::defaults(),
            state: RoomState::Waiting,
        }
    }

    /// Whether the room has reached its capacity.
    pub open spec fn full(self) -> bool {
        self.participants.len() >= self.max_participants
    }

    /// The room with its member list replaced.
    pub open spec fn with_participants(self, participants: Seq<ParticipantId>) -> RoomView {
        RoomView { participants, ..self }
    }

    /// The room with its lifecycle state replaced.
    pub open spec fn with_state(self, state: RoomState) -> RoomView {
        RoomView { state, ..self }
    }

    /// The room without any occurrence of `id` among its members, the others
    /// kept in order.
    pub open spec fn without(self, id: ParticipantId) -> RoomView {
        self.with_participants(self.participants.filter(other_than(id)))
    }

    /// The detail of the error that refuses one more participant.
    pub open spec fn full_detail(self) -> Seq<char> {
        "room "@ + uuid_text(self.id) + " is full ("@ + decimal(self.participants.len()) + "/"@
            + decimal(self.max_participants as nat) + ")"@
    }
}

impl Room {
    /// Builds a room from an identifier and a creation time already drawn.
    pub fn from_parts(
        id: RoomId,
        name: &str,
        host_id: ParticipantId,
        max_participants: usize,
        created_at: Timestamp,
    ) -> (r: Room)
        ensures
            r@ == RoomView::fresh(id, name@, host_id, max_participants, created_at),
    {
        let mut participants = Vec::new();
        participants.push(host_id);
        Room {
            id,
            name: name.to_owned(),
            host_id,
            participants,
            max_participants,
            created_at,
            config: RoomConfig::default(),
            state: RoomState::Waiting,
        }
    }

    /// Create a new room with the given name and host: a fresh random
    /// identifier, the current time, waiting, with the host as its only participant.
    pub fn new(name: &str, host_id: ParticipantId, max_participants: usize) -> (r: Room)
        ensures
            r@ == RoomView::fresh(r.id, name@, host_id, max_participants, r.created_at),
            r.id & VERSION_VARIANT_MASK == VERSION_VARIANT_BITS,
    {
        let id = new_id();
        let now = now();
        Room::from_parts(id, name, host_id, max_participants, now)
    }

    /// Returns `true` if the room has reached its capacity.
    pub fn is_full(&self) -> (r: bool)
        ensures
            r == self@.full(),
    {
        self.participants.len() >= self.max_participants
    }

    /// Add a participant to the room.
    ///
    /// Returns a capacity error, and leaves the room as it was, exactly when
    /// the room is full.
    pub fn add_participant(&mut self, id: ParticipantId) -> (r: Result<(), TaimenError>)
        ensures
            r is Err <==> old(self)@.full(),
            r is Ok ==> final(self)@ == old(self)@.with_participants(old(self)@.participants.push(id)),
            r matches Err(e) ==> final(self)@ == old(self)@ && e is Capacity && e.detail() == old(self)@.full_detail(),
    {
        if self.is_full() {
            let mut msg = "room ".to_owned();
            let id_str = id_text(self.id);
            msg.append(id_str.as_str());
            msg.append(" is full (");
            let len_str = count_text(self.participants.len());
            msg.append(len_str.as_str());
            msg.append("/");
            let max_str = count_text(self.max_participants);
            msg.append(max_str.as_str());
            msg.append(")");
            return Err(TaimenError::Capacity(msg));
        }
        self.participants.push(id);
        Ok(())
    }

    /// Remove a participant from the room: every occurrence of `id` goes,
    /// the other members keep their order.
    pub fn remove_participant(&mut self, id: ParticipantId)
        ensures
            final(self)@ == old(self)@.without(id),
    {
        self.participants = ids_without(&self.participants, id);
    }
}

/// The identifiers of `ids` other than `id`, in their order.
pub(crate) fn ids_without(ids: &Vec<ParticipantId>, id: ParticipantId) -> (kept: Vec<ParticipantId>)
    ensures
        kept@ == ids@.filter(other_than(id)),
{
    let ghost pred = other_than(id);
    let mut kept: Vec<ParticipantId> = Vec::new();
    let mut i: usize = 0;
    let n = ids.len();
    while i < n
        invariant
            n == ids.len(),
            pred == other_than(id),
            0 <= i <= n,
            kept@ == ids@.take(i as int).filter(pred),
        decreases n - i,
    {
        let p = ids[i];
        proof {
            let s = ids@;
            assert(s.take(i + 1).drop_last() =~= s.take(i as int));
            assert(s.take(i + 1).last() == p);
            assert(s.take(i + 1).filter(pred) == if pred(p) {
                s.take(i as int).filter(pred).push(p)
            } else {
                s.take(i as int).filter(pred)
            }) by {
                reveal(Seq::filter);
            }
        }
        if p != id {
            kept.push(p);
        }
        i = i + 1;
    }
    proof {
        assert(ids@.take(n as int) =~= ids@);
    }
    kept
}

/// Removing a member strikes every occurrence of it.
pub proof fn removed_member_is_gone(r: RoomView, id: ParticipantId)
    ensures
        !r.without(id).participants.contains(id),
{
    let kept = r.participants.filter(other_than(id));
    assert forall|i: int| 0 <= i < kept.len() implies kept[i] != id by {
        r.participants.lemma_filter_pred(other_than(id), i);
    }
}

/// Adding a participant that was not a member, then removing it, gives back
/// the room as it was.
pub proof fn add_then_remove_restores(r: RoomView, id: ParticipantId)
    requires
        !r.participants.contains(id),
    ensures
        r.with_participants(r.participants.push(id)).without(id) == r,
{
    let s = r.participants;
    let pred = other_than(id);
    assert(s.filter(pred) =~= s) by {
        filter_keeps_all(s, id);
    }
    assert(s.push(id).drop_last() =~= s);
    assert(s.push(id).filter(pred) == s.filter(pred)) by {
        reveal(Seq::filter);
    }
}

/// Filtering out an identifier that does not occur keeps the sequence whole.
proof fn filter_keeps_all(s: Seq<ParticipantId>, id: ParticipantId)
    requires
        !s.contains(id),
    ensures
        s.filter(other_than(id)) == s,
    decreases s.len(),
{
    reveal(Seq::filter);
    if s.len() > 0 {
        assert(!s.drop_last().contains(id)) by {
            if s.drop_last().contains(id) {
                let j = choose|j: int| 0 <= j < s.drop_last().len() && s.drop_last()[j] == id;
                assert(s[j] == id);
            }
        }
        filter_keeps_all(s.drop_last(), id);
        assert(s.last() != id) by {
            assert(s[s.len() - 1] == s.last());
        }
        assert(s.drop_last().push(s.last()) =~= s);
    }
}

/// Room-level feature toggles.
#[derive(Debug, Clone, Copy)]
pub struct RoomConfig {
    /// Whether video tracks are enabled.
    pub video_enabled: bool,
    /// Whether audio tracks are enabled.
    pub audio_enabled: bool,
    /// Whether screen-sharing is allowed.
    pub screen_share_enabled: bool,
    /// Whether the room may be recorded.
    pub recording_enabled: bool,
    /// Optional maximum duration for the room session.
    pub max_duration: Option<Span>,
}

impl RoomConfig {
    /// The default toggles: video, audio and screen-sharing on, recording
    /// off, no maximum duration.
    pub open spec fn defaults() -> RoomConfig {
        RoomConfig {
            video_enabled: true,
            audio_enabled: true,
            screen_share_enabled: true,
            recording_enabled: false,
            max_duration: None,
        }
    }
}

impl Default for RoomConfig {
    fn default() -> (c: RoomConfig)
        ensures
            c == RoomConfig::defaults(),
    {
        RoomConfig {
            video_enabled: true,
            audio_enabled: true,
            screen_share_enabled: true,
            recording_enabled: false,
            max_duration: None,
        }
    }
}

/// Lifecycle state of a room.
#[derive(Debug, Clone, Copy, PartialEq, Eq, Structural)]
pub enum RoomState {
    /// Room exists but the meeting has not started.
    Waiting,
    /// Meeting is in progress.
    Active,
    /// Meeting has ended.
    Ended,
}

} // verus!
