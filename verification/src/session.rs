//! The pagination state machine of one interactive command session.
//!
//! A session is created when a command's first response message is known,
//! holds a page index that only its own controller ever moves, and ends in
//! a terminal state on an explicit accept, on a timeout, or on the loss of
//! its mailbox. Entering the terminal state always removes the session's
//! registry entry, on every path, so no dangling entry can survive a
//! session.
//!
//! The timeout window is a configurable number of seconds and is measured
//! once from session creation; it does not restart when an event arrives.

use crate::registry::SessionRegistry;
use vstd::prelude::*;

verus! {

/// How long a session waits before it gives up, in seconds, unless the
/// caller configures another window.
pub const DEFAULT_TIMEOUT_SECS: u64 = 60;

/// The closed vocabulary of controls on an interactive message. Any other
/// identifier the platform delivers is carried as `Unknown`: a protocol
/// violation to be ignored, never a reason to fail.
#[derive(Debug, PartialEq)]
pub enum Control {
    Back,
    Forward,
    Accept,
    Unknown(String),
}

/// One user interaction with a session's controls, as the platform
/// boundary hands it over.
#[derive(Debug, PartialEq)]
pub struct InboundEvent {
    pub source_user_id: u64,
    pub control: Control,
}

/// Whether a session still accepts events.
#[derive(Clone, Copy, Debug, PartialEq, Eq, Structural)]
pub enum SessionPhase {
    Active,
    Terminated,
}

/// What the controller asks its surroundings to do after a step.
#[derive(Debug, PartialEq)]
pub enum StepEffect {
    /// Re-render the given page and edit the response message.
    Redraw { page: usize },
    /// Acknowledge the event at the platform boundary and nothing more.
    AcknowledgeOnly,
    /// The session is over: render once more with the controls removed.
    Cleanup,
}

/// The state one session controller owns: the identity of its response
/// message, the user who opened it, and the pagination state. No other
/// component ever mutates the page.
pub struct Session {
    pub message_id: u64,
    pub owner_user_id: u64,
    pub page: usize,
    pub total_pages: usize,
    pub phase: SessionPhase,
}

/// The page after a `Back` move: one less, clamped at the first page.
pub open spec fn back_page(page: usize) -> usize {
    if page == 0 {
        0
    } else {
        (page - 1) as usize
    }
}

/// The page after a `Forward` move: one more, clamped at the last page.
pub open spec fn forward_page(page: usize, total_pages: usize) -> usize
    recommends
        total_pages >= 1,
{
    if page + 1 < total_pages {
        (page + 1) as usize
    } else {
        (total_pages - 1) as usize
    }
}

/// The page an active session shows after an event.
pub open spec fn next_page(s: Session, ev: InboundEvent) -> usize {
    if ev.source_user_id != s.owner_user_id {
        s.page
    } else {
        match ev.control {
            Control::Back => back_page(s.page),
            Control::Forward => forward_page(s.page, s.total_pages),
            Control::Accept => s.page,
            Control::Unknown(_) => s.page,
        }
    }
}

/// The phase an active session is in after an event: only the owner's
/// `Accept` terminates it.
pub open spec fn next_phase(s: Session, ev: InboundEvent) -> SessionPhase {
    if ev.source_user_id == s.owner_user_id && ev.control is Accept {
        SessionPhase::Terminated
    } else {
        s.phase
    }
}

/// What an active session asks for after an event: a stranger's event is
/// only acknowledged; the owner's `Accept` asks for the final cleanup;
/// every other owner event re-renders the (possibly unchanged) page. An
/// unknown control is a protocol violation: it moves nothing, but the
/// page is still redrawn as after any non-terminating transition.
pub open spec fn step_effect(s: Session, ev: InboundEvent) -> StepEffect {
    if ev.source_user_id != s.owner_user_id {
        StepEffect::AcknowledgeOnly
    } else {
        match ev.control {
            Control::Back => StepEffect::Redraw { page: back_page(s.page) },
            Control::Forward => StepEffect::Redraw { page: forward_page(s.page, s.total_pages) },
            Control::Accept => StepEffect::Cleanup,
            Control::Unknown(_) => StepEffect::Redraw { page: s.page },
        }
    }
}

impl Session {
    /// A session always has at least one page and shows a page that
    /// exists.
    pub open spec fn wf(self) -> bool {
        &&& self.total_pages >= 1
        &&& self.page < self.total_pages
    }

    /// Starts a session: registers the mailbox under the response
    /// message's identity and returns the controller state on its first
    /// page. Fails, changing nothing, if the identity is already
    /// registered, which would mean two controllers for one message.
    pub fn open<V>(
        reg: &mut SessionRegistry<V>,
        mailbox: V,
        message_id: u64,
        owner_user_id: u64,
        total_pages: usize,
    ) -> (r: Option<Session>)
        requires
            total_pages >= 1,
        ensures
            match r {
                Some(s) => {
                    &&& s == (Session {
                        message_id,
                        owner_user_id,
                        page: 0,
                        total_pages,
                        phase: SessionPhase::Active,
                    })
                    &&& s.wf()
                    &&& !old(reg)@.contains_key(message_id)
                    &&& final(reg)@ == old(reg)@.insert(message_id, mailbox)
                },
                None => {
                    &&& old(reg)@.contains_key(message_id)
                    &&& final(reg)@ == old(reg)@
                },
            },
    {
        let fresh = reg.insert(message_id, mailbox);
        if fresh {
            Some(
                Session {
                    message_id,
                    owner_user_id,
                    page: 0,
                    total_pages,
                    phase: SessionPhase::Active,
                },
            )
        } else {
            None
        }
    }

    /// Consumes one event from the mailbox. A stranger's event and an
    /// unknown control change nothing; the owner's `Back` and `Forward`
    /// move the page within its clamped bounds; the owner's `Accept`
    /// terminates the session, and its registry entry is gone the moment
    /// this returns.
    pub fn handle_event<V>(
        &mut self,
        reg: &mut SessionRegistry<V>,
        ev: &InboundEvent,
    ) -> (effect: StepEffect)
        requires
            old(self).wf(),
            old(self).phase is Active,
        ensures
            final(self).wf(),
            final(self).message_id == old(self).message_id,
            final(self).owner_user_id == old(self).owner_user_id,
            final(self).total_pages == old(self).total_pages,
            final(self).page == next_page(*old(self), *ev),
            final(self).phase == next_phase(*old(self), *ev),
            effect == step_effect(*old(self), *ev),
            final(reg)@ == if next_phase(*old(self), *ev) is Terminated {
                old(reg)@.remove(old(self).message_id)
            } else {
                old(reg)@
            },
            next_phase(*old(self), *ev) is Terminated ==> !final(reg)@.contains_key(
                old(self).message_id,
            ),
    {
        if ev.source_user_id != self.owner_user_id {
            return StepEffect::AcknowledgeOnly;
        }
        match &ev.control {
            Control::Back => {
                if self.page > 0 {
                    self.page = self.page - 1;
                }
                StepEffect::Redraw { page: self.page }
            },
            Control::Forward => {
                if self.page + 1 < self.total_pages {
                    self.page = self.page + 1;
                }
                StepEffect::Redraw { page: self.page }
            },
            Control::Accept => {
                self.phase = SessionPhase::Terminated;
                reg.remove(self.message_id);
                StepEffect::Cleanup
            },
            Control::Unknown(_) => StepEffect::Redraw { page: self.page },
        }
    }

    /// Ends the session from outside the event flow: the timeout fired, or
    /// the mailbox was closed under the controller. Unconditionally enters
    /// the terminal phase and removes the registry entry, whatever events
    /// may still be pending.
    pub fn terminate<V>(&mut self, reg: &mut SessionRegistry<V>)
        ensures
            final(self).phase is Terminated,
            final(self).message_id == old(self).message_id,
            final(self).owner_user_id == old(self).owner_user_id,
            final(self).total_pages == old(self).total_pages,
            final(self).page == old(self).page,
            final(reg)@ == old(reg)@.remove(old(self).message_id),
            !final(reg)@.contains_key(old(self).message_id),
    {
        self.phase = SessionPhase::Terminated;
        reg.remove(self.message_id);
    }
}

/// Navigation is clamped: `Back` lands on `max(page - 1, 0)`, `Forward` on
/// `min(page + 1, total_pages - 1)`, and repeating either move at its own
/// boundary leaves the page where it is.
pub proof fn lemma_navigation_clamps(page: usize, total_pages: usize)
    requires
        total_pages >= 1,
    ensures
        back_page(page) == vstd::math::max(page - 1, 0),
        forward_page(page, total_pages) == vstd::math::min(page + 1, total_pages - 1),
        page == 0 ==> back_page(page) == page,
        page == total_pages - 1 ==> forward_page(page, total_pages) == page,
{
}

/// The pagination invariant: whatever event arrives, the page a session
/// shows next still lies below its page count. The page is clamped, never
/// out of range.
pub proof fn lemma_page_stays_in_range(s: Session, ev: InboundEvent)
    requires
        s.wf(),
    ensures
        next_page(s, ev) < s.total_pages,
{
}

/// An event from anyone but the session's owner is inert: it moves no
/// page, terminates nothing, and earns only an acknowledgment.
pub proof fn lemma_foreign_event_is_inert(s: Session, ev: InboundEvent)
    requires
        ev.source_user_id != s.owner_user_id,
    ensures
        next_page(s, ev) == s.page,
        next_phase(s, ev) == s.phase,
        step_effect(s, ev) is AcknowledgeOnly,
{
}

} // verus!
