//! Session registry: the process-wide map from the identity of a response
//! message to the mailbox of the session that listens on it.
//!
//! An entry is inserted when a session starts and removed when its
//! controller terminates. Insertion of an identity that is already present
//! is a bug signal and must leave the first entry in place; removal is
//! idempotent, so the timeout path and the explicit-completion path may
//! both clean up without racing each other into an error.

use std::collections::HashMap;
use vstd::prelude::*;

verus! {

broadcast use vstd::std_specs::hash::group_hash_axioms;

/// The map from message identity to mailbox handle. The handle type is a
/// parameter: the callers hang whatever channel endpoint they use on it.
pub struct SessionRegistry<V> {
    table: HashMap<u64, V>,
}

impl<V> View for SessionRegistry<V> {
    type V = Map<u64, V>;

    closed spec fn view(&self) -> Map<u64, V> {
        self.table@
    }
}

/// What a registry holds after an attempted insertion: an identity that is
/// already present keeps its first mailbox, it is never silently replaced.
pub open spec fn after_insert<V>(m: Map<u64, V>, id: u64, mailbox: V) -> Map<u64, V> {
    if m.contains_key(id) {
        m
    } else {
        m.insert(id, mailbox)
    }
}

impl<V> SessionRegistry<V> {
    /// An empty registry: no session is listening yet.
    pub fn new() -> (r: Self)
        ensures
            r@ == Map::<u64, V>::empty(),
    {
        SessionRegistry { table: HashMap::new() }
    }

    /// Registers a mailbox under a message identity. Returns `false`, and
    /// changes nothing, if the identity is already taken: a duplicate is a
    /// bug signal, not a replacement.
    pub fn insert(&mut self, id: u64, mailbox: V) -> (fresh: bool)
        ensures
            fresh == !old(self)@.contains_key(id),
            final(self)@ == after_insert(old(self)@, id, mailbox),
    {
        if self.table.contains_key(&id) {
            false
        } else {
            self.table.insert(id, mailbox);
            true
        }
    }

    /// Non-blocking read of the mailbox registered under an identity.
    pub fn lookup(&self, id: u64) -> (r: Option<&V>)
        ensures
            match r {
                Some(mailbox) => self@.contains_key(id) && *mailbox == self@[id],
                None => !self@.contains_key(id),
            },
    {
        self.table.get(&id)
    }

    /// Removes the entry under an identity. Removing an absent identity is
    /// a no-op, so double cleanup is harmless.
    pub fn remove(&mut self, id: u64)
        ensures
            final(self)@ == old(self)@.remove(id),
    {
        self.table.remove(&id);
    }

    /// How many sessions are currently registered.
    pub fn len(&self) -> (n: usize)
        ensures
            n == self@.len(),
    {
        self.table.len()
    }
}

/// Inserting a mailbox and then removing its identity leaves the identity
/// unregistered: a lookup after the pair finds nothing.
pub proof fn lemma_insert_then_remove<V>(m: Map<u64, V>, id: u64, mailbox: V)
    ensures
        !after_insert(m, id, mailbox).remove(id).contains_key(id),
{
}

/// A second insertion under an identity that is already registered changes
/// nothing: the first mailbox stays, and the duplicate is reported rather
/// than silently replacing it.
pub proof fn lemma_duplicate_insert_keeps_first<V>(m: Map<u64, V>, id: u64, first: V, second: V)
    requires
        !m.contains_key(id),
    ensures
        after_insert(after_insert(m, id, first), id, second) == after_insert(m, id, first),
        after_insert(after_insert(m, id, first), id, second)[id] == first,
{
}

} // verus!
