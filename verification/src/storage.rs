//! In-memory storage for rooms, participants, and recording metadata.
use vstd::prelude::*;
use dashmap::DashMap;
use crate::clock::{now, Timestamp};
use crate::error::TaimenError;
use crate::ids::id_text;
use crate::participant::{Participant, ParticipantId, ParticipantRole};
use crate::room::{ids_without, other_than, Room, RoomId, RoomState, RoomView};
use crate::tables::{
    member_table, member_table_get, member_table_insert, member_table_remove, new_member_table,
    new_participant_table, new_recording_table, new_room_table, participant_table,
    participant_table_get, participant_table_insert, participant_table_remove, recording_table,
    recording_table_get, recording_table_insert, recording_table_remove, room_table,
    room_table_entries, room_table_get, room_table_insert, room_table_remove,
};
use crate::text::uuid_text;

verus! {

/// Metadata about an active recording.
#[derive(Debug, Clone, Copy)]
pub struct RecordingInfo {
    /// Whether recording is active.
    pub active: bool,
    /// When recording started.
    pub started_at: Option<Timestamp>,
    /// Who started the recording.
    pub started_by: Option<ParticipantId>,
}

/// Shared application state for the signaling server: rooms, participant
/// records, the member list of each room, and recording states.
pub struct Store {
    /// Rooms keyed by room ID.
    rooms: DashMap<RoomId, Room>,
    /// Participants keyed by participant ID.
    participants: DashMap<ParticipantId, Participant>,
    /// Room ID -> list of participant IDs.
    room_participants: DashMap<RoomId, Vec<ParticipantId>>,
    /// Recording state: room ID -> recording info.
    recording_state: DashMap<RoomId, RecordingInfo>,
}

/// What the store holds.
pub struct StoreView {
    /// Rooms keyed by their identifiers.
    pub rooms: Map<RoomId, RoomView>,
    /// Participant records keyed by their identifiers.
    pub participants: Map<ParticipantId, Participant>,
    /// The member list kept for each room.
    pub members: Map<RoomId, Seq<ParticipantId>>,
    /// Recording states keyed by room.
    pub recordings: Map<RoomId, RecordingInfo>,
}

impl View for Store {
    type V = StoreView;

    closed spec fn view(&self) -> StoreView {
        StoreView {
            rooms: room_table(self.rooms).map_values(|r: Room| r@),
            participants: participant_table(self.participants),
            members: member_table(self.room_participants).map_values(|v: Vec<ParticipantId>| v@),
            recordings: recording_table(self.recording_state),
        }
    }
}

/// The detail of the error for a room that is not in the store.
pub open spec fn room_missing(id: RoomId) -> Seq<char> {
    "room "@ + uuid_text(id) + " not found"@
}

/// The detail of the error for a participant that is not in the store.
pub open spec fn participant_missing(id: ParticipantId) -> Seq<char> {
    "participant "@ + uuid_text(id) + " not found"@
}

/// The records found for `ids`, in order, skipping identifiers without one.
pub open spec fn present(ids: Seq<ParticipantId>, records: Map<ParticipantId, Participant>) -> Seq<Participant>
    decreases ids.len(),
{
    if ids.len() == 0 {
        Seq::empty()
    } else {
        let rest = present(ids.drop_last(), records);
        if records.contains_key(ids.last()) {
            rest.push(records[ids.last()])
        } else {
            rest
        }
    }
}

impl StoreView {
    /// The participant records of a room's member list, in order.
    pub open spec fn listed(self, id: RoomId) -> Seq<Participant> {
        present(self.members_of(id), self.participants)
    }

    /// Whether `pid` may moderate by role: its record's role is host or moderator.
    pub open spec fn can_moderate(self, pid: ParticipantId) -> bool {
        self.participants.contains_key(pid) && self.participants[pid].role.moderates()
    }

    /// Whether `pid` is the host of the stored room `room_id`.
    pub open spec fn hosts(self, room_id: RoomId, pid: ParticipantId) -> bool {
        self.rooms.contains_key(room_id) && self.rooms[room_id].host_id == pid
    }

    /// The store with one participant record replaced.
    pub open spec fn with_participant(self, p: Participant) -> StoreView {
        StoreView { participants: self.participants.insert(p.id, p), ..self }
    }

    /// The store with the recording state of a room replaced.
    pub open spec fn with_recording(self, id: RoomId, info: RecordingInfo) -> StoreView {
        StoreView { recordings: self.recordings.insert(id, info), ..self }
    }

    /// The store's invariant: finitely many rooms, each stored under its own
    /// identifier; each participant record stored under its own identifier;
    /// a member list only for a stored room, equal to that room's members; a
    /// room without a member list has no members.
    pub open spec fn wf(self) -> bool {
        &&& self.rooms.dom().finite()
        &&& forall|k: ParticipantId| #[trigger] self.participants.contains_key(k) ==> self.participants[k].id == k
        &&& forall|k: RoomId| #[trigger] self.rooms.contains_key(k) ==> self.rooms[k].id == k
        &&& forall|k: RoomId| #[trigger] self.members.contains_key(k) ==>
            self.rooms.contains_key(k) && self.members[k] == self.rooms[k].participants
        &&& forall|k: RoomId| #[trigger] self.rooms.contains_key(k) && !self.members.contains_key(k) ==>
            self.rooms[k].participants.len() == 0
    }

    /// The store after a room is added with its host as only member.
    pub open spec fn after_create(self, room: RoomView) -> StoreView {
        StoreView {
            rooms: self.rooms.insert(room.id, room),
            members: self.members.insert(room.id, seq![room.host_id]),
            ..self
        }
    }

    /// The store with a stored room's lifecycle state replaced.
    pub open spec fn with_room_state(self, id: RoomId, state: RoomState) -> StoreView {
        StoreView { rooms: self.rooms.insert(id, self.rooms[id].with_state(state)), ..self }
    }

    /// The member list kept for a room, empty when there is none.
    pub open spec fn members_of(self, id: RoomId) -> Seq<ParticipantId> {
        if self.members.contains_key(id) {
            self.members[id]
        } else {
            Seq::empty()
        }
    }

    /// The store after a room is ended: the room is marked ended and emptied,
    /// its member list dropped, the records of its listed members removed,
    /// and its recording state dropped.
    pub open spec fn after_end(self, id: RoomId) -> StoreView {
        StoreView {
            rooms: self.rooms.insert(
                id,
                self.rooms[id].with_state(RoomState::Ended).with_participants(Seq::empty()),
            ),
            participants: self.participants.remove_keys(self.members_of(id).to_set()),
            members: self.members.remove(id),
            recordings: self.recordings.remove(id),
        }
    }

    /// The room as it stands after `p` joins it: `p` appended to its members,
    /// and a waiting room with more than one member made active.
    pub open spec fn joined_room(self, id: RoomId, p: ParticipantId) -> RoomView {
        let joined = self.rooms[id].with_participants(self.rooms[id].participants.push(p));
        if joined.state == RoomState::Waiting && joined.participants.len() > 1 {
            joined.with_state(RoomState::Active)
        } else {
            joined
        }
    }

    /// The store after participant `p` joins room `id`.
    pub open spec fn after_join(self, id: RoomId, p: Participant) -> StoreView {
        StoreView {
            rooms: self.rooms.insert(id, self.joined_room(id, p.id)),
            participants: self.participants.insert(p.id, p),
            members: self.members.insert(id, self.members_of(id).push(p.id)),
            ..self
        }
    }

    /// The room as it stands after `p` leaves it: every occurrence of `p`
    /// gone, and a room left without members ended.
    pub open spec fn left_room(self, id: RoomId, p: ParticipantId) -> RoomView {
        let left = self.rooms[id].without(p);
        if left.participants.len() == 0 {
            left.with_state(RoomState::Ended)
        } else {
            left
        }
    }

    /// The store after participant `p` leaves room `id`: its record is
    /// dropped and it is struck from the room and from the room's member list.
    pub open spec fn after_leave(self, id: RoomId, p: ParticipantId) -> StoreView {
        StoreView {
            rooms: self.rooms.insert(id, self.left_room(id, p)),
            participants: self.participants.remove(p),
            members: if self.members.contains_key(id) {
                self.members.insert(id, self.members[id].filter(other_than(p)))
            } else {
                self.members
            },
            ..self
        }
    }

    /// The store after a room is ended and then removed.
    pub open spec fn after_delete(self, id: RoomId) -> StoreView {
        let ended = self.after_end(id);
        StoreView { rooms: ended.rooms.remove(id), ..ended }
    }
}

/// Makes the error for a room that is not in the store.
fn room_not_found(id: RoomId) -> (e: TaimenError)
    ensures
        e is Room && e.detail() == room_missing(id),
{
    let mut msg = "room ".to_owned();
    let id_str = id_text(id);
    msg.append(id_str.as_str());
    msg.append(" not found");
    TaimenError::Room(msg)
}

/// Makes the error for a participant that is not in the store.
fn participant_not_found(id: ParticipantId) -> (e: TaimenError)
    ensures
        e is Signal && e.detail() == participant_missing(id),
{
    let mut msg = "participant ".to_owned();
    let id_str = id_text(id);
    msg.append(id_str.as_str());
    msg.append(" not found");
    TaimenError::Signal(msg)
}

impl Store {
    /// Create a new empty store.
    pub fn new() -> (s: Store)
        ensures
            s@.wf(),
            s@.rooms.is_empty(),
            s@.participants.is_empty(),
            s@.members.is_empty(),
            s@.recordings.is_empty(),
    {
        let s = Store {
            rooms: new_room_table(),
            participants: new_participant_table(),
            room_participants: new_member_table(),
            recording_state: new_recording_table(),
        };
        assert(s@.rooms =~= Map::empty());
        assert(s@.members =~= Map::empty());
        s
    }

    // ── Rooms ──

    /// Create a new room, store it with its host as only member, and return it.
    pub fn create_room(&mut self, name: &str, host_id: ParticipantId, max_participants: usize) -> (r: Room)
        requires
            old(self)@.wf(),
        ensures
            final(self)@.wf(),
            r@ == RoomView::fresh(r.id, name@, host_id, max_participants, r.created_at),
            final(self)@ == old(self)@.after_create(r@),
    {
        let room = Room::new(name, host_id, max_participants);
        self.add_room(room)
    }

    /// Stores a room whose host is its only member, under its identifier,
    /// with the host as its member list, and returns the stored room.
    pub(crate) fn add_room(&mut self, room: Room) -> (r: Room)
        requires
            old(self)@.wf(),
            room@.participants == seq![room.host_id],
        ensures
            final(self)@.wf(),
            r@ == room@,
            final(self)@ == old(self)@.after_create(room@),
    {
        let id = room.id;
        let host_id = room.host_id;
        let ghost view = room@;
        room_table_insert(&mut self.rooms, id, room);
        let mut members: Vec<ParticipantId> = Vec::new();
        members.push(host_id);
        member_table_insert(&mut self.room_participants, id, members);
        let stored = room_table_get(&self.rooms, id);
        proof {
            let old_v = old(self)@;
            let new_v = self@;
            assert(new_v.rooms =~= old_v.rooms.insert(id, view));
            assert(new_v.members =~= old_v.members.insert(id, seq![host_id]));
        }
        stored.unwrap()
    }

    /// Get a room by ID.
    pub fn get_room(&self, room_id: &RoomId) -> (r: Option<Room>)
        ensures
            r is Some <==> self@.rooms.contains_key(*room_id),
            r matches Some(room) ==> room@ == self@.rooms[*room_id],
    {
        room_table_get(&self.rooms, *room_id)
    }

    /// Update room state.
    pub fn set_room_state(&mut self, room_id: &RoomId, state: RoomState) -> (r: Result<Room, TaimenError>)
        requires
            old(self)@.wf(),
        ensures
            final(self)@.wf(),
            r is Err <==> !old(self)@.rooms.contains_key(*room_id),
            r matches Err(e) ==> e is Room && e.detail() == room_missing(*room_id) && final(self)@ == old(self)@,
            r matches Ok(room) ==> final(self)@ == old(self)@.with_room_state(*room_id, state)
                && room@ == final(self)@.rooms[*room_id],
    {
        let id = *room_id;
        match room_table_remove(&mut self.rooms, id) {
            None => {
                proof {
                    assert(room_table(self.rooms) =~= room_table(old(self).rooms));
                }
                Err(room_not_found(id))
            },
            Some(mut room) => {
                room.state = state;
                room_table_insert(&mut self.rooms, id, room);
                proof {
                    assert(room_table(self.rooms) =~= room_table(old(self).rooms).insert(id, room));
                    assert(self@.rooms =~= old(self)@.with_room_state(id, state).rooms);
                }
                Ok(room_table_get(&self.rooms, id).unwrap())
            },
        }
    }

    /// List all active rooms (not ended), each once, in the table's order.
    #[verifier::spinoff_prover]
    pub fn list_rooms(&self) -> (r: Vec<Room>)
        requires
            self@.wf(),
        ensures
            forall|i: int| 0 <= i < r.len() ==> {
                &&& self@.rooms.contains_key(#[trigger] r[i].id)
                &&& r[i]@ == self@.rooms[r[i].id]
                &&& r[i].state != RoomState::Ended
            },
            forall|k: RoomId| #[trigger] self@.rooms.contains_key(k) && self@.rooms[k].state != RoomState::Ended
                ==> exists|i: int| 0 <= i < r.len() && #[trigger] r[i].id == k,
            forall|i: int, j: int| 0 <= i < j < r.len() ==> #[trigger] r[i].id != #[trigger] r[j].id,
    {
        let entries = room_table_entries(&self.rooms);
        let ghost all = entries@;
        let ghost table = room_table(self.rooms);
        proof {
            assert(all.len() == entries.len());
            assert forall|k: RoomId| #[trigger] table.contains_key(k) implies table[k].id == k by {
                assert(self@.rooms.contains_key(k));
            }
            assert forall|i: int| 0 <= i < all.len() implies #[trigger] table.contains_key(all[i].0)
                && table[all[i].0]@ == all[i].1@ by {
            }
        }
        let mut out: Vec<Room> = Vec::new();
        let ghost mut src: Seq<int> = Seq::empty();
        let mut n: usize = 0;
        for entry in it: entries.into_iter()
            invariant
                all == it.seq(),
                n == it.index(),
                all.len() <= usize::MAX,
                forall|k: RoomId| #[trigger] table.contains_key(k) ==> table[k].id == k,
                forall|i: int| 0 <= i < all.len() ==> #[trigger] table.contains_key(all[i].0)
                    && table[all[i].0]@ == all[i].1@,
                out.len() == src.len(),
                forall|m: int| 0 <= m < out.len() ==> 0 <= #[trigger] src[m] < n && out[m] == all[src[m]].1
                    && out[m].state != RoomState::Ended,
                forall|a: int, b: int| 0 <= a < b < src.len() ==> #[trigger] src[a] < #[trigger] src[b],
                forall|j: int| 0 <= j < n && (#[trigger] all[j]).1.state != RoomState::Ended
                    ==> exists|m: int| 0 <= m < src.len() && #[trigger] src[m] == j,
        {
            assert(entry == all[n as int]);
            let ghost old_src = src;
            let ghost old_out = out@;
            let (_key, room) = entry;
            if room.state != RoomState::Ended {
                proof {
                    src = src.push(n as int);
                }
                out.push(room);
            }
            proof {
                assert forall|m: int| 0 <= m < out.len() implies 0 <= #[trigger] src[m] < n + 1
                    && out[m] == all[src[m]].1 && out[m].state != RoomState::Ended by {
                    if m < old_out.len() {
                        assert(src[m] == old_src[m]);
                        assert(out@[m] == old_out[m]);
                    }
                }
                assert forall|j: int| 0 <= j < n + 1 && (#[trigger] all[j]).1.state != RoomState::Ended
                    implies exists|m: int| 0 <= m < src.len() && #[trigger] src[m] == j by {
                    if j < n {
                        let m = choose|m: int| 0 <= m < old_src.len() && #[trigger] old_src[m] == j;
                        assert(src[m] == old_src[m]);
                    } else {
                        assert(src[src.len() - 1] == j);
                    }
                }
            }
            n = n + 1;
        }
        proof {
            assert forall|i: int| 0 <= i < out.len() implies {
                &&& self@.rooms.contains_key(#[trigger] out[i].id)
                &&& out[i]@ == self@.rooms[out[i].id]
                &&& out[i].state != RoomState::Ended
            } by {
                let j = src[i];
                assert(table.contains_key(all[j].0));
                assert(table[all[j].0].id == all[j].0);
            }
            assert forall|k: RoomId| #[trigger] self@.rooms.contains_key(k) && self@.rooms[k].state != RoomState::Ended
                implies exists|i: int| 0 <= i < out.len() && #[trigger] out[i].id == k by {
                assert(table.contains_key(k));
                let j = choose|j: int| 0 <= j < all.len() && #[trigger] all[j].0 == k;
                assert(table[all[j].0]@ == all[j].1@);
                let m = choose|m: int| 0 <= m < src.len() && #[trigger] src[m] == j;
                assert(out[m].id == k);
            }
            assert forall|a: int, b: int| 0 <= a < b < out.len() implies #[trigger] out[a].id != #[trigger] out[b].id by {
                let ja = src[a];
                let jb = src[b];
                assert(src[a] < src[b]);
                assert(table.contains_key(all[ja].0));
                assert(table.contains_key(all[jb].0));
                assert(table[all[ja].0].id == all[ja].0);
                assert(table[all[jb].0].id == all[jb].0);
            }
        }
        out
    }

    /// End a room: sets state to Ended, removes all its participants and
    /// their records, and drops its recording state.
    #[verifier::spinoff_prover]
    pub fn end_room(&mut self, room_id: &RoomId) -> (r: Result<(), TaimenError>)
        requires
            old(self)@.wf(),
        ensures
            final(self)@.wf(),
            r is Err <==> !old(self)@.rooms.contains_key(*room_id),
            r matches Err(e) ==> e is Room && e.detail() == room_missing(*room_id) && final(self)@ == old(self)@,
            r is Ok ==> final(self)@ == old(self)@.after_end(*room_id),
    {
        let id = *room_id;
        let ghost old_v = old(self)@;
        match room_table_remove(&mut self.rooms, id) {
            None => {
                proof {
                    assert(room_table(self.rooms) =~= room_table(old(self).rooms));
                }
                Err(room_not_found(id))
            },
            Some(mut room) => {
                room.state = RoomState::Ended;
                room.participants = Vec::new();
                let ghost ended = room;
                room_table_insert(&mut self.rooms, id, room);
                proof {
                    assert(room_table(self.rooms) =~= room_table(old(self).rooms).insert(id, ended));
                }
                let ghost parts0 = participant_table(self.participants);
                let listed = member_table_remove(&mut self.room_participants, id);
                let ghost rooms1 = room_table(self.rooms);
                let ghost members1 = member_table(self.room_participants);
                let ghost recordings1 = recording_table(self.recording_state);
                let ghost listed_ids: Seq<ParticipantId> = old_v.members_of(id);
                match listed {
                    Some(pids) => {
                        let mut i: usize = 0;
                        while i < pids.len()
                            invariant
                                0 <= i <= pids.len(),
                                pids@ == listed_ids,
                                room_table(self.rooms) == rooms1,
                                member_table(self.room_participants) == members1,
                                recording_table(self.recording_state) == recordings1,
                                participant_table(self.participants)
                                    == parts0.remove_keys(pids@.take(i as int).to_set()),
                            decreases pids.len() - i,
                        {
                            let pid = pids[i];
                            participant_table_remove(&mut self.participants, pid);
                            proof {
                                let s = pids@;
                                assert(s.take(i + 1).to_set() =~= s.take(i as int).to_set().insert(pid)) by {
                                    assert forall|x: ParticipantId| s.take(i + 1).contains(x)
                                        implies s.take(i as int).contains(x) || x == pid by {
                                        let k = choose|k: int| 0 <= k < i + 1 && #[trigger] s.take(i + 1)[k] == x;
                                        if k < i {
                                            assert(s.take(i as int)[k] == x);
                                        }
                                    }
                                    assert forall|x: ParticipantId| s.take(i as int).contains(x)
                                        implies s.take(i + 1).contains(x) by {
                                        let k = choose|k: int| 0 <= k < i && #[trigger] s.take(i as int)[k] == x;
                                        assert(s.take(i + 1)[k] == x);
                                    }
                                    assert(s.take(i + 1)[i as int] == pid);
                                }
                                assert(participant_table(self.participants) =~= parts0.remove_keys(
                                    s.take(i + 1).to_set(),
                                ));
                            }
                            i = i + 1;
                        }
                        proof {
                            assert(pids@.take(pids.len() as int) =~= pids@);
                        }
                    },
                    None => {
                        proof {
                            assert(listed_ids.to_set() =~= Set::empty());
                            assert(participant_table(self.participants) =~= parts0.remove_keys(listed_ids.to_set()));
                        }
                    },
                }
                recording_table_remove(&mut self.recording_state, id);
                proof {
                    let new_v = self@;
                    let want = old_v.after_end(id);
                    assert(room_table(self.rooms) == room_table(old(self).rooms).insert(id, ended));
                    assert(ended@ == old_v.rooms[id].with_state(RoomState::Ended).with_participants(Seq::empty()));
                    assert(new_v.rooms =~= want.rooms);
                    assert(new_v.members =~= want.members);
                    assert(new_v.participants =~= want.participants);
                    assert(new_v.recordings =~= want.recordings);
                }
                Ok(())
            },
        }
    }

    /// Delete a room completely: end it, then remove it.
    pub fn delete_room(&mut self, room_id: &RoomId) -> (r: Result<(), TaimenError>)
        requires
            old(self)@.wf(),
        ensures
            final(self)@.wf(),
            r is Err <==> !old(self)@.rooms.contains_key(*room_id),
            r matches Err(e) ==> e is Room && e.detail() == room_missing(*room_id) && final(self)@ == old(self)@,
            r is Ok ==> final(self)@ == old(self)@.after_delete(*room_id),
            r is Ok ==> !final(self)@.rooms.contains_key(*room_id)
                && !final(self)@.members.contains_key(*room_id)
                && !final(self)@.recordings.contains_key(*room_id)
                && (forall|p: ParticipantId| #[trigger] old(self)@.members_of(*room_id).contains(p)
                    ==> !final(self)@.participants.contains_key(p))
                && (forall|k: RoomId| k != *room_id ==> #[trigger] final(self)@.rooms.get(k) == old(self)@.rooms.get(k)),
    {
        self.end_room(room_id)?;
        let ghost mid = self@;
        room_table_remove(&mut self.rooms, *room_id);
        proof {
            assert(self@.rooms =~= mid.rooms.remove(*room_id));
        }
        Ok(())
    }

    // ── Participants ──

    /// Add a participant to a room.
    ///
    /// Fails, leaving the store as it was, when the room is not stored, has
    /// ended, or is full. Otherwise a fresh participant joins: it is appended
    /// to the room and to the room's member list, its record is stored, and
    /// a waiting room with more than one member becomes active.
    #[verifier::spinoff_prover]
    pub fn join_room(
        &mut self,
        room_id: &RoomId,
        user_id: u128,
        display_name: &str,
        role: ParticipantRole,
    ) -> (r: Result<Participant, TaimenError>)
        requires
            old(self)@.wf(),
        ensures
            final(self)@.wf(),
            r is Ok <==> old(self)@.rooms.contains_key(*room_id)
                && old(self)@.rooms[*room_id].state != RoomState::Ended
                && !old(self)@.rooms[*room_id].full(),
            r is Err ==> final(self)@ == old(self)@,
            r matches Err(e) ==> {
                if !old(self)@.rooms.contains_key(*room_id) {
                    e is Room && e.detail() == room_missing(*room_id)
                } else if old(self)@.rooms[*room_id].state == RoomState::Ended {
                    e is Room && e.detail() == "room has ended"@
                } else {
                    e is Capacity && e.detail() == old(self)@.rooms[*room_id].full_detail()
                }
            },
            r matches Ok(p) ==> p.is_fresh(user_id, display_name@, role)
                && final(self)@ == old(self)@.after_join(*room_id, p),
    {
        let id = *room_id;
        let ghost old_v = old(self)@;
        let mut room = match room_table_remove(&mut self.rooms, id) {
            None => {
                proof {
                    assert(room_table(self.rooms) =~= room_table(old(self).rooms));
                }
                return Err(room_not_found(id));
            },
            Some(room) => room,
        };
        let ghost stored = room;
        if room.state == RoomState::Ended {
            room_table_insert(&mut self.rooms, id, room);
            proof {
                assert(room_table(self.rooms) =~= room_table(old(self).rooms));
            }
            return Err(TaimenError::Room("room has ended".to_owned()));
        }
        let participant = Participant::new(user_id, display_name, role);
        let pid = participant.id;
        let ghost fresh = participant;
        match room.add_participant(pid) {
            Err(e) => {
                room_table_insert(&mut self.rooms, id, room);
                proof {
                    assert(self@.rooms =~= old_v.rooms);
                }
                return Err(e);
            },
            Ok(()) => {},
        }
        participant_table_insert(&mut self.participants, pid, participant);
        let mut listed = match member_table_remove(&mut self.room_participants, id) {
            Some(v) => v,
            None => Vec::new(),
        };
        listed.push(pid);
        let ghost listed_now = listed@;
        member_table_insert(&mut self.room_participants, id, listed);
        if room.state == RoomState::Waiting && room.participants.len() > 1 {
            room.state = RoomState::Active;
        }
        let ghost placed = room;
        room_table_insert(&mut self.rooms, id, room);
        proof {
            assert(old_v.rooms.contains_key(id));
            if old_v.members.contains_key(id) {
                assert(old_v.members[id] == old_v.rooms[id].participants);
            } else {
                assert(old_v.rooms[id].participants.len() == 0);
            }
            assert(old_v.members_of(id) =~= old_v.rooms[id].participants);
            assert(listed_now == old_v.members_of(id).push(pid));
            assert(placed@ == old_v.joined_room(id, pid));
            let new_v = self@;
            let want = old_v.after_join(id, fresh);
            assert(new_v.rooms =~= want.rooms);
            assert(new_v.members =~= want.members);
            assert(new_v.participants =~= want.participants);
        }
        Ok(participant_table_get(&self.participants, pid).unwrap())
    }

    /// Remove a participant from a room: it is struck from the room and its
    /// member list and its record dropped; a room left empty is ended.
    #[verifier::spinoff_prover]
    pub fn leave_room(&mut self, room_id: &RoomId, participant_id: &ParticipantId) -> (r: Result<(), TaimenError>)
        requires
            old(self)@.wf(),
        ensures
            final(self)@.wf(),
            r is Err <==> !old(self)@.rooms.contains_key(*room_id),
            r matches Err(e) ==> e is Room && e.detail() == room_missing(*room_id) && final(self)@ == old(self)@,
            r is Ok ==> final(self)@ == old(self)@.after_leave(*room_id, *participant_id),
            r is Ok ==> final(self)@.rooms.contains_key(*room_id)
                && final(self)@.rooms[*room_id].participants
                    == old(self)@.rooms[*room_id].participants.filter(other_than(*participant_id))
                && final(self)@.rooms[*room_id].state == if final(self)@.rooms[*room_id].participants.len() == 0 {
                    RoomState::Ended
                } else {
                    old(self)@.rooms[*room_id].state
                }
                && !final(self)@.participants.contains_key(*participant_id),
    {
        let id = *room_id;
        let pid = *participant_id;
        let ghost old_v = old(self)@;
        let mut room = match room_table_remove(&mut self.rooms, id) {
            None => {
                proof {
                    assert(room_table(self.rooms) =~= room_table(old(self).rooms));
                }
                return Err(room_not_found(id));
            },
            Some(room) => room,
        };
        room.remove_participant(pid);
        participant_table_remove(&mut self.participants, pid);
        match member_table_remove(&mut self.room_participants, id) {
            Some(listed) => {
                let kept = ids_without(&listed, pid);
                member_table_insert(&mut self.room_participants, id, kept);
            },
            None => {},
        }
        if room.participants.len() == 0 {
            room.state = RoomState::Ended;
        }
        let ghost placed = room;
        room_table_insert(&mut self.rooms, id, room);
        proof {
            assert(placed@ == old_v.left_room(id, pid));
            let new_v = self@;
            let want = old_v.after_leave(id, pid);
            assert(new_v.rooms =~= want.rooms);
            assert(new_v.members =~= want.members);
            assert(new_v.participants =~= want.participants);
        }
        Ok(())
    }

    /// Get a participant by ID.
    pub fn get_participant(&self, participant_id: &ParticipantId) -> (r: Option<Participant>)
        ensures
            r == self@.participants.get(*participant_id),
    {
        participant_table_get(&self.participants, *participant_id)
    }

    /// List participants in a room: the records of its member list, in
    /// order, skipping members without a record.
    pub fn list_participants(&self, room_id: &RoomId) -> (r: Vec<Participant>)
        ensures
            r@ == self@.listed(*room_id),
    {
        let ghost records = self@.participants;
        let ids = match member_table_get(&self.room_participants, *room_id) {
            Some(ids) => ids,
            None => Vec::new(),
        };
        proof {
            assert(ids@ == self@.members_of(*room_id));
        }
        let mut out: Vec<Participant> = Vec::new();
        let mut i: usize = 0;
        while i < ids.len()
            invariant
                0 <= i <= ids.len(),
                records == self@.participants,
                out@ == present(ids@.take(i as int), records),
            decreases ids.len() - i,
        {
            let pid = ids[i];
            proof {
                assert(ids@.take(i + 1).drop_last() =~= ids@.take(i as int));
                assert(ids@.take(i + 1).last() == pid);
            }
            match participant_table_get(&self.participants, pid) {
                Some(p) => out.push(p),
                None => {},
            }
            i = i + 1;
        }
        proof {
            assert(ids@.take(ids.len() as int) =~= ids@);
        }
        out
    }

    /// Update participant mute state: each flag for which a value is given
    /// takes that value.
    pub fn set_mute(
        &mut self,
        participant_id: &ParticipantId,
        audio_muted: Option<bool>,
        video_muted: Option<bool>,
    ) -> (r: Result<Participant, TaimenError>)
        requires
            old(self)@.wf(),
        ensures
            final(self)@.wf(),
            r is Err <==> !old(self)@.participants.contains_key(*participant_id),
            r matches Err(e) ==> e is Signal && e.detail() == participant_missing(*participant_id)
                && final(self)@ == old(self)@,
            r matches Ok(p) ==> p == old(self)@.participants[*participant_id].with_mute(audio_muted, video_muted)
                && final(self)@ == old(self)@.with_participant(p),
    {
        let pid = *participant_id;
        let mut p = match participant_table_remove(&mut self.participants, pid) {
            None => {
                proof {
                    assert(participant_table(self.participants) =~= participant_table(old(self).participants));
                }
                return Err(participant_not_found(pid));
            },
            Some(p) => p,
        };
        if let Some(muted) = audio_muted {
            p.audio_muted = muted;
        }
        if let Some(muted) = video_muted {
            p.video_muted = muted;
        }
        participant_table_insert(&mut self.participants, pid, p);
        proof {
            assert(participant_table(self.participants) =~= old(self)@.with_participant(p).participants);
        }
        Ok(participant_table_get(&self.participants, pid).unwrap())
    }

    /// Toggle hand raise for a participant, returning the new value.
    pub fn toggle_hand(&mut self, participant_id: &ParticipantId) -> (r: Result<bool, TaimenError>)
        requires
            old(self)@.wf(),
        ensures
            final(self)@.wf(),
            r is Err <==> !old(self)@.participants.contains_key(*participant_id),
            r matches Err(e) ==> e is Signal && e.detail() == participant_missing(*participant_id)
                && final(self)@ == old(self)@,
            r matches Ok(raised) ==> raised == !old(self)@.participants[*participant_id].hand_raised
                && final(self)@ == old(self)@.with_participant(
                    old(self)@.participants[*participant_id].with_hand(raised),
                ),
    {
        let pid = *participant_id;
        let mut p = match participant_table_remove(&mut self.participants, pid) {
            None => {
                proof {
                    assert(participant_table(self.participants) =~= participant_table(old(self).participants));
                }
                return Err(participant_not_found(pid));
            },
            Some(p) => p,
        };
        let raised = p.toggle_hand();
        participant_table_insert(&mut self.participants, pid, p);
        proof {
            assert(participant_table(self.participants) =~= old(self)@.with_participant(p).participants);
        }
        Ok(raised)
    }

    /// Set screen sharing state.
    pub fn set_screen_sharing(&mut self, participant_id: &ParticipantId, sharing: bool) -> (r: Result<Participant, TaimenError>)
        requires
            old(self)@.wf(),
        ensures
            final(self)@.wf(),
            r is Err <==> !old(self)@.participants.contains_key(*participant_id),
            r matches Err(e) ==> e is Signal && e.detail() == participant_missing(*participant_id)
                && final(self)@ == old(self)@,
            r matches Ok(p) ==> p == old(self)@.participants[*participant_id].with_sharing(sharing)
                && final(self)@ == old(self)@.with_participant(p),
    {
        let pid = *participant_id;
        let mut p = match participant_table_remove(&mut self.participants, pid) {
            None => {
                proof {
                    assert(participant_table(self.participants) =~= participant_table(old(self).participants));
                }
                return Err(participant_not_found(pid));
            },
            Some(p) => p,
        };
        p.screen_sharing = sharing;
        participant_table_insert(&mut self.participants, pid, p);
        proof {
            assert(participant_table(self.participants) =~= old(self)@.with_participant(p).participants);
        }
        Ok(participant_table_get(&self.participants, pid).unwrap())
    }

    /// Check if a participant has moderator privileges: it has a record and
    /// its role is host or moderator.
    pub fn can_moderate(&self, participant_id: &ParticipantId) -> (r: bool)
        ensures
            r == self@.can_moderate(*participant_id),
    {
        match participant_table_get(&self.participants, *participant_id) {
            Some(p) => p.role.can_moderate(),
            None => false,
        }
    }

    /// Whether `participant_id` is the host of the stored room `room_id`.
    pub fn is_host(&self, room_id: &RoomId, participant_id: &ParticipantId) -> (r: bool)
        ensures
            r == self@.hosts(*room_id, *participant_id),
    {
        match self.get_room(room_id) {
            Some(room) => room.host_id == *participant_id,
            None => false,
        }
    }

    // ── Recording ──

    /// Start recording for a room: the room's recording state becomes active,
    /// started now by `started_by`.
    pub fn start_recording(&mut self, room_id: &RoomId, started_by: ParticipantId) -> (r: Result<RecordingInfo, TaimenError>)
        requires
            old(self)@.wf(),
        ensures
            final(self)@.wf(),
            r is Err <==> !old(self)@.rooms.contains_key(*room_id),
            r matches Err(e) ==> e is Room && e.detail() == room_missing(*room_id) && final(self)@ == old(self)@,
            r matches Ok(info) ==> info.active && info.started_by == Some(started_by) && info.started_at is Some
                && final(self)@ == old(self)@.with_recording(*room_id, info),
    {
        if self.get_room(room_id).is_none() {
            return Err(room_not_found(*room_id));
        }
        let info = RecordingInfo { active: true, started_at: Some(now()), started_by: Some(started_by) };
        recording_table_insert(&mut self.recording_state, *room_id, info);
        Ok(info)
    }

    /// Stop recording for a room: its recording state becomes inactive.
    pub fn stop_recording(&mut self, room_id: &RoomId) -> (r: Result<RecordingInfo, TaimenError>)
        requires
            old(self)@.wf(),
        ensures
            final(self)@.wf(),
            r is Err <==> !old(self)@.recordings.contains_key(*room_id),
            r matches Err(e) ==> e is Room && e.detail() == "no active recording"@ && final(self)@ == old(self)@,
            r matches Ok(info) ==> info == (RecordingInfo { active: false, ..old(self)@.recordings[*room_id] })
                && final(self)@ == old(self)@.with_recording(*room_id, info),
    {
        match recording_table_get(&self.recording_state, *room_id) {
            None => Err(TaimenError::Room("no active recording".to_owned())),
            Some(mut info) => {
                info.active = false;
                recording_table_insert(&mut self.recording_state, *room_id, info);
                proof {
                    assert(self@.rooms == old(self)@.rooms);
                    assert(self@.members == old(self)@.members);
                    assert(self@.participants == old(self)@.participants);
                }
                Ok(info)
            },
        }
    }

    /// Get recording state for a room.
    pub fn get_recording_state(&self, room_id: &RoomId) -> (r: Option<RecordingInfo>)
        ensures
            r == self@.recordings.get(*room_id),
    {
        recording_table_get(&self.recording_state, *room_id)
    }
}

impl Default for Store {
    fn default() -> (s: Store)
        ensures
            s@.wf(),
            s@.rooms.is_empty(),
            s@.participants.is_empty(),
            s@.members.is_empty(),
            s@.recordings.is_empty(),
    {
        Store::new()
    }
}

/// Every record listed for `ids` is the record of one of `ids`.
pub proof fn present_are_records(ids: Seq<ParticipantId>, records: Map<ParticipantId, Participant>)
    ensures
        forall|q: Participant| #[trigger] present(ids, records).contains(q) ==> exists|k: ParticipantId|
            ids.contains(k) && #[trigger] records.contains_key(k) && records[k] == q,
    decreases ids.len(),
{
    if ids.len() > 0 {
        let rest = ids.drop_last();
        present_are_records(rest, records);
        assert forall|q: Participant| #[trigger] present(ids, records).contains(q) implies exists|k: ParticipantId|
            ids.contains(k) && #[trigger] records.contains_key(k) && records[k] == q by {
            let i = choose|i: int| 0 <= i < present(ids, records).len() && present(ids, records)[i] == q;
            if present(rest, records).contains(q) {
                let k = choose|k: ParticipantId| rest.contains(k) && #[trigger] records.contains_key(k) && records[k] == q;
                let j = choose|j: int| 0 <= j < rest.len() && rest[j] == k;
                assert(ids[j] == k);
            } else {
                assert(i == present(rest, records).len());
                assert(ids[ids.len() - 1] == ids.last());
            }
        }
    }
}

/// A room that was just created is found under its identifier.
pub proof fn created_room_is_found(s: StoreView, room: RoomView)
    ensures
        s.after_create(room).rooms.get(room.id) == Some(room),
{
}

/// A room's state, once set, is what a lookup of the room reports.
pub proof fn set_state_is_found(s: StoreView, id: RoomId, state: RoomState)
    requires
        s.rooms.contains_key(id),
    ensures
        s.with_room_state(id, state).rooms[id].state == state,
{
}

/// After a room is ended it is marked ended, has no members and no member
/// list, no recording state, and none of its listed members keeps a record.
pub proof fn ended_room_is_emptied(s: StoreView, id: RoomId)
    requires
        s.wf(),
        s.rooms.contains_key(id),
    ensures
        s.after_end(id).rooms[id].state == RoomState::Ended,
        s.after_end(id).rooms[id].participants.len() == 0,
        !s.after_end(id).members.contains_key(id),
        !s.after_end(id).recordings.contains_key(id),
        forall|p: ParticipantId| #[trigger] s.members_of(id).contains(p) ==> !s.after_end(id).participants.contains_key(p),
        s.after_end(id).listed(id).len() == 0,
{
}

/// After a room is deleted it is no longer found.
pub proof fn deleted_room_is_gone(s: StoreView, id: RoomId)
    ensures
        !s.after_delete(id).rooms.contains_key(id),
{
}

/// Leaving a stored room strikes the participant from the room's members,
/// keeps the others in order, drops its record, and ends the room exactly
/// when nobody is left; otherwise the room keeps the state it had.
pub proof fn leaving_ends_only_an_emptied_room(s: StoreView, id: RoomId, p: ParticipantId)
    requires
        s.wf(),
        s.rooms.contains_key(id),
    ensures
        s.after_leave(id, p).rooms.contains_key(id),
        s.after_leave(id, p).rooms[id].participants == s.rooms[id].participants.filter(other_than(p)),
        !s.after_leave(id, p).rooms[id].participants.contains(p),
        s.after_leave(id, p).rooms[id].state == if s.after_leave(id, p).rooms[id].participants.len() == 0 {
            RoomState::Ended
        } else {
            s.rooms[id].state
        },
        !s.after_leave(id, p).participants.contains_key(p),
        forall|k: RoomId| k != id ==> #[trigger] s.after_leave(id, p).rooms.get(k) == s.rooms.get(k),
{
    crate::room::removed_member_is_gone(s.rooms[id], p);
}

/// Deleting a stored room removes it together with its member list, its
/// recording state and the records of everyone listed in it, and leaves
/// every other room as it was.
pub proof fn deleted_room_is_cleared(s: StoreView, id: RoomId)
    requires
        s.wf(),
        s.rooms.contains_key(id),
    ensures
        !s.after_delete(id).rooms.contains_key(id),
        !s.after_delete(id).members.contains_key(id),
        !s.after_delete(id).recordings.contains_key(id),
        forall|p: ParticipantId| #[trigger] s.members_of(id).contains(p) ==> !s.after_delete(id).participants.contains_key(p),
        forall|k: RoomId| k != id ==> #[trigger] s.after_delete(id).rooms.get(k) == s.rooms.get(k),
{
}

/// A participant that joined a room is the last record listed for it.
pub proof fn joined_participant_is_listed(s: StoreView, id: RoomId, p: Participant)
    ensures
        s.after_join(id, p).listed(id).len() >= 1,
        s.after_join(id, p).listed(id).last() == p,
{
    let t = s.after_join(id, p);
    let ids = s.members_of(id).push(p.id);
    assert(t.members_of(id) == ids);
    assert(ids.drop_last() == s.members_of(id));
    assert(ids.last() == p.id);
}

/// A participant that left a room is no longer listed for it and has no record.
pub proof fn left_participant_is_unlisted(s: StoreView, id: RoomId, p: ParticipantId)
    requires
        s.wf(),
    ensures
        !s.after_leave(id, p).participants.contains_key(p),
        forall|q: Participant| #[trigger] s.after_leave(id, p).listed(id).contains(q) ==> q.id != p,
{
    let t = s.after_leave(id, p);
    present_are_records(t.members_of(id), t.participants);
    assert forall|q: Participant| #[trigger] t.listed(id).contains(q) implies q.id != p by {
        let k = choose|k: ParticipantId| t.members_of(id).contains(k) && #[trigger] t.participants.contains_key(k)
            && t.participants[k] == q;
        assert(s.participants[k].id == k);
    }
}

/// Stopping a recording that was started keeps who started it and when,
/// and marks it inactive.
pub proof fn stop_after_start(s: StoreView, id: RoomId, info: RecordingInfo)
    ensures
        ({
            let started = s.with_recording(id, info);
            let stopped = started.with_recording(id, RecordingInfo { active: false, ..started.recordings[id] });
            &&& !stopped.recordings[id].active
            &&& stopped.recordings[id].started_by == info.started_by
            &&& stopped.recordings[id].started_at == info.started_at
        }),
{
}

/// The creator of a room is its host once it is stored.
pub proof fn creator_hosts_room(s: StoreView, room: RoomView)
    ensures
        s.after_create(room).hosts(room.id, room.host_id),
{
}

} // verus!
