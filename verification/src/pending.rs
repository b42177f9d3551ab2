//! The table of pending requests: request identifier to the single-use
//! completion handle that will wake the caller awaiting that command.  The
//! table is shared by all concurrent commands of one client; here it is one
//! owned value, and the caller serializes access to it.

use std::collections::HashMap;
use vstd::prelude::*;

verus! {

broadcast use vstd::std_specs::hash::group_hash_axioms;

#[verifier::external_type_specification]
#[verifier::external_body]
#[verifier::reject_recursive_types(T)]
pub struct ExOneshotSender<T>(tokio::sync::oneshot::Sender<T>);

/// Relies on tokio::sync::oneshot::Sender::send: hands the value to the
/// receiving half if it still listens, and consumes the sender either way.
/// The original discards the outcome: a receiver dropped before its response
/// arrives is no error.
#[verifier::external_body]
pub(crate) fn send_response(
    tx: tokio::sync::oneshot::Sender<serde_json::Value>,
    v: serde_json::Value,
) {
    let _ = tx.send(v);
}

pub struct Pending {
    map: HashMap<u64, tokio::sync::oneshot::Sender<serde_json::Value>>,
}

impl View for Pending {
    type V = Map<u64, tokio::sync::oneshot::Sender<serde_json::Value>>;

    closed spec fn view(&self) -> Map<u64, tokio::sync::oneshot::Sender<serde_json::Value>> {
        self.map@
    }
}

impl Pending {
    /// An empty table: no command is outstanding.
    pub fn new() -> (t: Pending)
        ensures
            t@ == Map::<u64, tokio::sync::oneshot::Sender<serde_json::Value>>::empty(),
    {
        Pending { map: HashMap::new() }
    }

    /// Record that the command tagged `id` awaits its response on `tx`.
    pub fn insert(&mut self, id: u64, tx: tokio::sync::oneshot::Sender<serde_json::Value>)
        ensures
            final(self)@ == old(self)@.insert(id, tx),
    {
        self.map.insert(id, tx);
    }

    /// Remove and return the handle registered under `id`, if any; every
    /// other entry is untouched.  The read loop claims a response's entry
    /// this way, and a caller abandoning a command can retract its own entry
    /// the same way, so that no stale handle lingers in the table.
    pub fn take(&mut self, id: u64) -> (r: Option<
        tokio::sync::oneshot::Sender<serde_json::Value>,
    >)
        ensures
            match r {
                Some(tx) => old(self)@.contains_key(id) && tx == old(self)@[id] && final(self)@
                    == old(self)@.remove(id),
                None => !old(self)@.contains_key(id) && final(self)@ == old(self)@,
            },
    {
        self.map.remove(&id)
    }

    /// Whether a command tagged `id` is still outstanding.
    pub fn contains(&self, id: u64) -> (r: bool)
        ensures
            r == self@.contains_key(id),
    {
        self.map.contains_key(&id)
    }

    /// How many commands are outstanding.
    pub fn len(&self) -> (n: usize)
        ensures
            n == self@.len(),
    {
        self.map.len()
    }
}

} // verus!
