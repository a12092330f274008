//! The slot that holds the listener, and the rules by which an event is
//! handed to it: never to two calls at once, and with room for the listener
//! to be replaced while it runs.

use vstd::prelude::*;

verus! {

/// The state of the listener slot.
#[derive(Debug)]
pub enum ListenerState<L> {
    /// No call is in progress; the listener, if there is one, is at rest.
    NotRunning(Option<L>),
    /// A call is in progress; the listener is out of the slot.
    Running,
    /// A call is in progress, and the listener was replaced meanwhile.
    ReplacedWhileRunning(Option<L>),
}

/// What taking the listener out of the slot gives.
pub struct Taken<L> {
    pub state: ListenerState<L>,
    pub listener: Option<L>,
}

impl<L> ListenerState<L> {
    /// Whether a call of the listener is in progress.
    pub open spec fn is_running(self) -> bool {
        !(self is NotRunning)
    }

    /// The slot after `listener` was set.
    pub open spec fn after_set(self, listener: Option<L>) -> ListenerState<L> {
        match self {
            ListenerState::NotRunning(_) => ListenerState::NotRunning(listener),
            ListenerState::Running => ListenerState::ReplacedWhileRunning(listener),
            ListenerState::ReplacedWhileRunning(_) => ListenerState::ReplacedWhileRunning(
                listener,
            ),
        }
    }

    /// The slot after an attempt to start a call, and the listener to call:
    /// a listener at rest is taken out and the slot is running; otherwise
    /// nothing is taken and nothing changes.
    pub open spec fn after_start(self) -> Taken<L> {
        match self {
            ListenerState::NotRunning(Some(l)) => Taken {
                state: ListenerState::Running,
                listener: Some(l),
            },
            _ => Taken { state: self, listener: None },
        }
    }

    /// The slot after a call has ended. `returned` is the listener that ran,
    /// or nothing if it panicked. A replacement that was set during the call
    /// wins over the listener that ran.
    pub open spec fn after_finish(self, returned: Option<L>) -> ListenerState<L> {
        match self {
            ListenerState::NotRunning(l) => ListenerState::NotRunning(l),
            ListenerState::Running => ListenerState::NotRunning(returned),
            ListenerState::ReplacedWhileRunning(new_listener) => ListenerState::NotRunning(
                new_listener,
            ),
        }
    }

    /// Takes the state out and leaves the slot running.
    fn take(&mut self) -> (state: Self)
        ensures
            state == *old(self),
            *final(self) == ListenerState::<L>::Running,
    {
        let mut state = ListenerState::Running;
        std::mem::swap(self, &mut state);
        state
    }

    /// A slot that holds `listener` at rest.
    pub fn new(listener: Option<L>) -> (state: Self)
        ensures
            state == ListenerState::NotRunning(listener),
    {
        ListenerState::NotRunning(listener)
    }

    /// Sets or removes the listener; allowed at any time, also from inside
    /// the listener while it runs.
    pub fn set_listener(&mut self, listener: Option<L>)
        ensures
            *final(self) == old(self).after_set(listener),
    {
        let next = match self {
            ListenerState::NotRunning(_) => ListenerState::NotRunning(listener),
            ListenerState::Running => ListenerState::ReplacedWhileRunning(listener),
            ListenerState::ReplacedWhileRunning(_) => ListenerState::ReplacedWhileRunning(
                listener,
            ),
        };
        *self = next;
    }

    /// Takes the listener out for a call on the task's own path, where calls
    /// come one after the other: no call may be in progress.
    pub fn start_event(&mut self) -> (taken: Option<L>)
        requires
            !old(self).is_running(),
        ensures
            *final(self) == old(self).after_start().state,
            taken == old(self).after_start().listener,
    {
        self.start_event_blocking()
    }

    /// Takes the listener out for a call while the task unwinds. A slot that
    /// is found running is left as it is, and nothing is called.
    pub fn start_event_blocking(&mut self) -> (taken: Option<L>)
        ensures
            *final(self) == old(self).after_start().state,
            taken == old(self).after_start().listener,
    {
        match self.take() {
            ListenerState::NotRunning(None) => {
                *self = ListenerState::NotRunning(None);
                None
            },
            ListenerState::NotRunning(Some(listener)) => Some(listener),
            unexpected_state => {
                *self = unexpected_state;
                None
            },
        }
    }

    /// Puts the listener back after its call. `returned` is the listener
    /// that ran, or nothing if it panicked.
    pub fn finish_event(&mut self, returned: Option<L>)
        requires
            old(self).is_running(),
        ensures
            *final(self) == old(self).after_finish(returned),
            !final(self).is_running(),
    {
        let next = match self.take() {
            ListenerState::NotRunning(l) => ListenerState::NotRunning(l),
            ListenerState::Running => ListenerState::NotRunning(returned),
            ListenerState::ReplacedWhileRunning(new_listener) => ListenerState::NotRunning(
                new_listener,
            ),
        };
        *self = next;
    }
}

/// While a call is in progress no second call starts: once the listener was
/// taken out, every further attempt takes nothing and changes nothing,
/// whatever listeners are set in between, until the call has ended.
pub proof fn lemma_calls_never_overlap<L>(state: ListenerState<L>, replacements: Seq<Option<L>>)
    requires
        state.is_running(),
    ensures
        after_sets(state, replacements).is_running(),
        after_sets(state, replacements).after_start().listener is None,
        after_sets(state, replacements).after_start().state == after_sets(state, replacements),
    decreases replacements.len(),
{
    if replacements.len() > 0 {
        lemma_calls_never_overlap(state.after_set(replacements[0]), replacements.skip(1));
    }
}

/// The slot after the listeners in `replacements` were set one by one.
pub open spec fn after_sets<L>(state: ListenerState<L>, replacements: Seq<Option<L>>)
    -> ListenerState<L>
    decreases replacements.len(),
{
    if replacements.len() == 0 {
        state
    } else {
        after_sets(state.after_set(replacements[0]), replacements.skip(1))
    }
}

/// A call starts only from rest and leaves the slot running; the end of the
/// call brings it to rest again, with the listener that was set last: the
/// replacement if there was one, the listener that ran otherwise.
pub proof fn lemma_call_cycle<L>(state: ListenerState<L>, returned: Option<L>)
    requires
        state.after_start().listener is Some,
    ensures
        state is NotRunning,
        state.after_start().state is Running,
        state.after_start().state.after_finish(returned) == ListenerState::NotRunning(returned),
        forall|new_listener: Option<L>|
            #![auto]
            state.after_start().state.after_set(new_listener).after_finish(returned)
                == ListenerState::NotRunning(new_listener),
{
}

} // verus!
