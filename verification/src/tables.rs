//! The concurrent hash tables of the store, from the `dashmap` crate, and
//! what each operation that the store uses does to their contents.
//!
//! The store mutates a table only through `&mut`, so no other reference can
//! observe or change it during a call; each table's contents are named by a
//! map from key to value.
use vstd::prelude::*;
use dashmap::DashMap;
use crate::participant::Participant;
use crate::room::Room;
use crate::storage::RecordingInfo;

verus! {

#[verifier::external_type_specification]
#[verifier::external_body]
#[verifier::reject_recursive_types(K)]
#[verifier::reject_recursive_types(V)]
#[verifier::reject_recursive_types(S)]
pub struct ExDashMap<K, V, S>(DashMap<K, V, S>);

/// The entries of a table of rooms, keyed by room identifier.
pub uninterp spec fn room_table(table: DashMap<u128, Room>) -> Map<u128, Room>;

/// Makes an empty table of rooms, keyed by room identifier.
///
/// Trusted: calls `DashMap::new`, which starts with no entries.
#[verifier::external_body]
pub(crate) fn new_room_table() -> (table: DashMap<u128, Room>)
    ensures
        room_table(table).is_empty(),
{
    DashMap::new()
}

/// Sets the entry of `key` in a table of rooms, keyed by room identifier.
///
/// Trusted: calls `DashMap::insert`, which adds the entry or replaces the
/// value of an existing one and leaves every other entry as it was.
#[verifier::external_body]
pub(crate) fn room_table_insert(table: &mut DashMap<u128, Room>, key: u128, value: Room)
    ensures
        room_table(*final(table)) == room_table(*old(table)).insert(key, value),
{
    table.insert(key, value);
}

/// Reads a copy of the entry of `key` in a table of rooms, keyed by room identifier.
///
/// Trusted: calls `DashMap::get`, which finds the entry of `key` if there is
/// one, and clones its value; the clone has the same view as the stored value.
#[verifier::external_body]
pub(crate) fn room_table_get(table: &DashMap<u128, Room>, key: u128) -> (value: Option<Room>)
    ensures
        value is Some <==> room_table(*table).contains_key(key),
        value matches Some(v) ==> v@ == room_table(*table)[key]@,
{
    table.get(&key).map(|entry| entry.value().clone())
}

/// Takes the entry of `key` out of a table of rooms, keyed by room identifier.
///
/// Trusted: calls `DashMap::remove`, which removes the entry of `key` if
/// there is one and hands back its value; every other entry stays.
#[verifier::external_body]
pub(crate) fn room_table_remove(table: &mut DashMap<u128, Room>, key: u128) -> (value: Option<Room>)
    ensures
        value == room_table(*old(table)).get(key),
        room_table(*final(table)) == room_table(*old(table)).remove(key),
{
    table.remove(&key).map(|entry| entry.1)
}

/// The entries of a table of participants, keyed by participant identifier.
pub uninterp spec fn participant_table(table: DashMap<u128, Participant>) -> Map<u128, Participant>;

/// Makes an empty table of participants, keyed by participant identifier.
///
/// Trusted: calls `DashMap::new`, which starts with no entries.
#[verifier::external_body]
pub(crate) fn new_participant_table() -> (table: DashMap<u128, Participant>)
    ensures
        participant_table(table).is_empty(),
{
    DashMap::new()
}

/// Sets the entry of `key` in a table of participants, keyed by participant identifier.
///
/// Trusted: calls `DashMap::insert`, which adds the entry or replaces the
/// value of an existing one and leaves every other entry as it was.
#[verifier::external_body]
pub(crate) fn participant_table_insert(table: &mut DashMap<u128, Participant>, key: u128, value: Participant)
    ensures
        participant_table(*final(table)) == participant_table(*old(table)).insert(key, value),
{
    table.insert(key, value);
}

/// Reads a copy of the entry of `key` in a table of participants, keyed by participant identifier.
///
/// Trusted: calls `DashMap::get`, which finds the entry of `key` if there is
/// one, and clones its value; the clone of a value is equal to it.
#[verifier::external_body]
pub(crate) fn participant_table_get(table: &DashMap<u128, Participant>, key: u128) -> (value: Option<Participant>)
    ensures
        value == participant_table(*table).get(key),
{
    table.get(&key).map(|entry| entry.value().clone())
}

/// Takes the entry of `key` out of a table of participants, keyed by participant identifier.
///
/// Trusted: calls `DashMap::remove`, which removes the entry of `key` if
/// there is one and hands back its value; every other entry stays.
#[verifier::external_body]
pub(crate) fn participant_table_remove(table: &mut DashMap<u128, Participant>, key: u128) -> (value: Option<Participant>)
    ensures
        value == participant_table(*old(table)).get(key),
        participant_table(*final(table)) == participant_table(*old(table)).remove(key),
{
    table.remove(&key).map(|entry| entry.1)
}

/// The entries of a table of member lists, keyed by room identifier.
pub uninterp spec fn member_table(table: DashMap<u128, Vec<u128>>) -> Map<u128, Vec<u128>>;

/// Makes an empty table of member lists, keyed by room identifier.
///
/// Trusted: calls `DashMap::new`, which starts with no entries.
#[verifier::external_body]
pub(crate) fn new_member_table() -> (table: DashMap<u128, Vec<u128>>)
    ensures
        member_table(table).is_empty(),
{
    DashMap::new()
}

/// Sets the entry of `key` in a table of member lists, keyed by room identifier.
///
/// Trusted: calls `DashMap::insert`, which adds the entry or replaces the
/// value of an existing one and leaves every other entry as it was.
#[verifier::external_body]
pub(crate) fn member_table_insert(table: &mut DashMap<u128, Vec<u128>>, key: u128, value: Vec<u128>)
    ensures
        member_table(*final(table)) == member_table(*old(table)).insert(key, value),
{
    table.insert(key, value);
}

/// Reads a copy of the entry of `key` in a table of member lists, keyed by room identifier.
///
/// Trusted: calls `DashMap::get`, which finds the entry of `key` if there is
/// one, and clones its value; the clone has the same view as the stored value.
#[verifier::external_body]
pub(crate) fn member_table_get(table: &DashMap<u128, Vec<u128>>, key: u128) -> (value: Option<Vec<u128>>)
    ensures
        value is Some <==> member_table(*table).contains_key(key),
        value matches Some(v) ==> v@ == member_table(*table)[key]@,
{
    table.get(&key).map(|entry| entry.value().clone())
}

/// Takes the entry of `key` out of a table of member lists, keyed by room identifier.
///
/// Trusted: calls `DashMap::remove`, which removes the entry of `key` if
/// there is one and hands back its value; every other entry stays.
#[verifier::external_body]
pub(crate) fn member_table_remove(table: &mut DashMap<u128, Vec<u128>>, key: u128) -> (value: Option<Vec<u128>>)
    ensures
        value == member_table(*old(table)).get(key),
        member_table(*final(table)) == member_table(*old(table)).remove(key),
{
    table.remove(&key).map(|entry| entry.1)
}

/// The entries of a table of recording states, keyed by room identifier.
pub uninterp spec fn recording_table(table: DashMap<u128, RecordingInfo>) -> Map<u128, RecordingInfo>;

/// Makes an empty table of recording states, keyed by room identifier.
///
/// Trusted: calls `DashMap::new`, which starts with no entries.
#[verifier::external_body]
pub(crate) fn new_recording_table() -> (table: DashMap<u128, RecordingInfo>)
    ensures
        recording_table(table).is_empty(),
{
    DashMap::new()
}

/// Sets the entry of `key` in a table of recording states, keyed by room identifier.
///
/// Trusted: calls `DashMap::insert`, which adds the entry or replaces the
/// value of an existing one and leaves every other entry as it was.
#[verifier::external_body]
pub(crate) fn recording_table_insert(table: &mut DashMap<u128, RecordingInfo>, key: u128, value: RecordingInfo)
    ensures
        recording_table(*final(table)) == recording_table(*old(table)).insert(key, value),
{
    table.insert(key, value);
}

/// Reads a copy of the entry of `key` in a table of recording states, keyed by room identifier.
///
/// Trusted: calls `DashMap::get`, which finds the entry of `key` if there is
/// one, and clones its value; the clone of a value is equal to it.
#[verifier::external_body]
pub(crate) fn recording_table_get(table: &DashMap<u128, RecordingInfo>, key: u128) -> (value: Option<RecordingInfo>)
    ensures
        value == recording_table(*table).get(key),
{
    table.get(&key).map(|entry| entry.value().clone())
}

/// Takes the entry of `key` out of a table of recording states, keyed by room identifier.
///
/// Trusted: calls `DashMap::remove`, which removes the entry of `key` if
/// there is one and hands back its value; every other entry stays.
#[verifier::external_body]
pub(crate) fn recording_table_remove(table: &mut DashMap<u128, RecordingInfo>, key: u128) -> (value: Option<RecordingInfo>)
    ensures
        value == recording_table(*old(table)).get(key),
        recording_table(*final(table)) == recording_table(*old(table)).remove(key),
{
    table.remove(&key).map(|entry| entry.1)
}

/// Copies out every entry of a table of rooms, in the table's own order.
///
/// Trusted: walks `DashMap::iter`, which visits each entry of every shard
/// exactly once, and clones each key and value; a cloned room has the same
/// view as the stored one. The order of the walk
/// depends on the hasher's random seed, so the contract states only that
/// the result lists each entry once.
#[verifier::external_body]
pub(crate) fn room_table_entries(table: &DashMap<u128, Room>) -> (entries: Vec<(u128, Room)>)
    ensures
        forall|i: int| 0 <= i < entries.len() ==> #[trigger] room_table(*table).contains_key(entries[i].0)
            && entries[i].1@ == room_table(*table)[entries[i].0]@,
        forall|i: int, j: int| 0 <= i < j < entries.len() ==> #[trigger] entries[i].0 != #[trigger] entries[j].0,
        forall|k: u128| room_table(*table).contains_key(k) ==> exists|i: int| 0 <= i < entries.len() && #[trigger] entries[i].0 == k,
{
    table.iter().map(|entry| (*entry.key(), entry.value().clone())).collect()
}

} // verus!
