//! Event router: the single ingress point for asynchronous UI events.
//!
//! Given an event's message identity, the router looks the session's
//! mailbox up in the registry and hands it to the caller for a bounded,
//! non-blocking forward. A failed forward marks the session dead and
//! removes its entry. Every event is acknowledged at the platform
//! boundary exactly once, whether or not anyone was listening, so the
//! user's control never shows a pending state.

use crate::registry::SessionRegistry;
use vstd::prelude::*;

verus! {

/// What the router decides for one inbound event.
pub struct RouteDecision<'a, V> {
    /// The mailbox registered under the event's message, when a session
    /// is listening.
    pub target: Option<&'a V>,
    /// The acknowledgment owed to the platform boundary. It is owed in
    /// every case: found, not found, or dead.
    pub acknowledge: bool,
}

/// The mailbox the router forwards to: the one registered under the
/// event's message identity, if any.
pub open spec fn route_target<V>(m: Map<u64, V>, message_id: u64) -> Option<V> {
    if m.contains_key(message_id) {
        Some(m[message_id])
    } else {
        None
    }
}

/// Decides one inbound event against the registry. The lookup mutates
/// nothing; the caller forwards the event into the returned mailbox, if
/// any, and acknowledges the event in every case.
pub fn route_event<'a, V>(reg: &'a SessionRegistry<V>, message_id: u64) -> (d: RouteDecision<
    'a,
    V,
>)
    ensures
        d.acknowledge,
        match d.target {
            Some(mailbox) => route_target(reg@, message_id) == Some(*mailbox),
            None => route_target(reg@, message_id) is None,
        },
{
    RouteDecision { target: reg.lookup(message_id), acknowledge: true }
}

/// The registry after the router reacts to a forward that failed.
pub open spec fn after_failed_send<V>(m: Map<u64, V>, message_id: u64) -> Map<u64, V> {
    m.remove(message_id)
}

/// Reacts to a forward that failed because the mailbox was full or
/// closed: the session is presumed dead and its entry removed, so the
/// router never waits on a stuck session. The caller still acknowledges
/// the event as a no-op.
pub fn delivery_failed<V>(reg: &mut SessionRegistry<V>, message_id: u64)
    ensures
        final(reg)@ == after_failed_send(old(reg)@, message_id),
        !final(reg)@.contains_key(message_id),
{
    reg.remove(message_id);
}

/// An event for a message identity no session registered is inert: there
/// is no mailbox to forward to, even the failure path would remove
/// nothing, and the event still earns its single acknowledgment.
pub proof fn lemma_unregistered_event_is_inert<V>(m: Map<u64, V>, message_id: u64)
    requires
        !m.contains_key(message_id),
    ensures
        route_target(m, message_id) is None,
        after_failed_send(m, message_id) =~= m,
{
}

} // verus!
