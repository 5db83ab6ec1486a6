//! The pairing state's collections: `dashmap::DashMap` tables and `tokio`
//! broadcast channels, reached through small trusted wrappers.
use vstd::prelude::*;
use dashmap::DashMap;
use tokio::sync::broadcast::Sender;
use crate::pairing::{empty_table, no_channels, request_views, stored_in, PairingEvent, PairingRequest, PairingRequestView};

verus! {

#[verifier::external_type_specification]
#[verifier::external_body]
#[verifier::reject_recursive_types(K)]
#[verifier::reject_recursive_types(V)]
#[verifier::reject_recursive_types(S)]
pub struct ExDashMap<K, V, S>(DashMap<K, V, S>);

#[verifier::external_type_specification]
#[verifier::external_body]
#[verifier::reject_recursive_types(T)]
pub struct ExBroadcastSender<T>(Sender<T>);

/// What the table of pending pairings holds: pairing code to request.
pub uninterp spec fn pending_contents(m: DashMap<String, PairingRequest>) -> Map<Seq<char>, PairingRequestView>;

/// What the table of channels holds: pairing code to the sending handle of
/// its broadcast channel.
pub uninterp spec fn channel_table(m: DashMap<String, Sender<PairingEvent>>) -> Map<
    Seq<char>,
    Sender<PairingEvent>,
>;

/// `DashMap::new`: an empty table of pending pairings.
#[verifier::external_body]
pub fn pending_new() -> (table: DashMap<String, PairingRequest>)
    ensures
        pending_contents(table) == empty_table(),
{
    DashMap::new()
}

/// `DashMap::get`, then a clone of the entry: the request stored under
/// `code`, if any.
#[verifier::external_body]
pub fn pending_get(m: &DashMap<String, PairingRequest>, code: &str) -> (r: Option<PairingRequest>)
    ensures
        match r {
            Some(q) => pending_contents(*m).contains_key(code@) && q@ == pending_contents(*m)[code@],
            None => !pending_contents(*m).contains_key(code@),
        },
{
    match m.get(code) {
        Some(entry) => Some(entry.value().clone()),
        None => None,
    }
}

/// `DashMap::insert`: stores `req` under `code`, replacing any earlier entry.
#[verifier::external_body]
pub fn pending_insert(m: &mut DashMap<String, PairingRequest>, code: String, req: PairingRequest)
    ensures
        pending_contents(*final(m)) == pending_contents(*old(m)).insert(code@, req@),
{
    m.insert(code, req);
}

/// `DashMap::remove`: drops the entry under `code`, if any.
#[verifier::external_body]
pub fn pending_remove(m: &mut DashMap<String, PairingRequest>, code: &str)
    ensures
        pending_contents(*final(m)) == pending_contents(*old(m)).remove(code@),
{
    m.remove(code);
}

/// `DashMap::iter`, each entry's value cloned: every stored request once,
/// in the table's own (unspecified) order.
#[verifier::external_body]
pub fn pending_values(m: &DashMap<String, PairingRequest>) -> (r: Vec<PairingRequest>)
    ensures
        forall|i: int| 0 <= i < r.len() ==> stored_in(pending_contents(*m), #[trigger] r[i]@),
        forall|k: Seq<char>|
            #[trigger] pending_contents(*m).contains_key(k) ==> request_views(r@).contains(
                pending_contents(*m)[k],
            ),
{
    m.iter().map(|entry| entry.value().clone()).collect()
}

/// `DashMap::new`: an empty table of channels.
#[verifier::external_body]
pub fn channels_new() -> (table: DashMap<String, Sender<PairingEvent>>)
    ensures
        channel_table(table) == no_channels(),
{
    DashMap::new()
}

/// `DashMap::get`, then `Sender::clone`: a handle on the channel of `code`,
/// if it has one. A clone of a sender is counted as that sender: both
/// handles reach the same channel (see `sender_clone`).
#[verifier::external_body]
pub fn channel_get(m: &DashMap<String, Sender<PairingEvent>>, code: &str) -> (r: Option<Sender<PairingEvent>>)
    ensures
        match r {
            Some(tx) => channel_table(*m).contains_key(code@) && tx == channel_table(*m)[code@],
            None => !channel_table(*m).contains_key(code@),
        },
{
    match m.get(code) {
        Some(entry) => Some(entry.value().clone()),
        None => None,
    }
}

/// `DashMap::insert`: stores the channel of `code`.
#[verifier::external_body]
pub fn channel_insert(m: &mut DashMap<String, Sender<PairingEvent>>, code: String, tx: Sender<PairingEvent>)
    ensures
        channel_table(*final(m)) == channel_table(*old(m)).insert(code@, tx),
{
    m.insert(code, tx);
}

/// The capacity a channel was asked for when it was made (its buffer holds
/// that many events, rounded up to a power of two).
pub uninterp spec fn sender_capacity(s: Sender<PairingEvent>) -> usize;

/// `tokio::sync::broadcast::channel`: a new channel, of which the sending
/// half is kept (the receiving half is dropped). It panics on a capacity of
/// zero or above `usize::MAX / 2`, which `requires` leaves out.
#[verifier::external_body]
pub fn broadcast_sender(capacity: usize) -> (tx: Sender<PairingEvent>)
    requires
        0 < capacity <= usize::MAX / 2,
    ensures
        sender_capacity(tx) == capacity,
{
    tokio::sync::broadcast::channel(capacity).0
}

/// `Sender::clone`: another handle on the same channel. The clone shares
/// the channel of `tx` (the source only counts one more sender), so it is
/// counted as equal to `tx`, as a clone of an `Arc` is.
#[verifier::external_body]
pub fn sender_clone(tx: &Sender<PairingEvent>) -> (r: Sender<PairingEvent>)
    ensures
        r == *tx,
{
    tx.clone()
}

/// `Sender::send`: offers `ev` to the channel's current subscribers. Whether
/// anyone receives it depends on who listens, so nothing is stated of it.
#[verifier::external_body]
pub fn publish(tx: &Sender<PairingEvent>, ev: PairingEvent) {
    let _ = tx.send(ev);
}

} // verus!
