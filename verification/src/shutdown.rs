//! Graceful shutdown as a small state machine: Running → Draining on the
//! first termination signal (interrupt or terminate, whichever fires
//! first), Draining → Stopped once the listener has stopped accepting and
//! the fixed grace delay has elapsed. At most one signal transition ever
//! fires, however many signals arrive.

use vstd::prelude::*;

verus! {

/// The grace delay between the listener stopping and the process ending,
/// in milliseconds, left for in-flight work and buffered telemetry.
pub const SHUTDOWN_GRACE_MILLIS: u64 = 200;

/// The lifecycle states of the coordinator.
#[derive(Clone, Copy, PartialEq, Eq, Structural, Debug)]
pub enum ShutdownState {
    Running,
    Draining,
    Stopped,
}

/// The two termination signals raced against the listener.
#[derive(Clone, Copy, PartialEq, Eq, Structural, Debug)]
pub enum TermSignal {
    Interrupt,
    Terminate,
}

/// What a termination signal does to the state: the first one starts
/// draining, any other leaves the state alone.
pub open spec fn signal_step(s: ShutdownState) -> ShutdownState {
    if s is Running {
        ShutdownState::Draining
    } else {
        s
    }
}

/// What completing the drain does to the state: only a draining
/// coordinator whose grace delay has elapsed stops.
pub open spec fn drain_step(s: ShutdownState, grace_elapsed: bool) -> ShutdownState {
    if s is Draining && grace_elapsed {
        ShutdownState::Stopped
    } else {
        s
    }
}

/// How far along the shutdown a state is; transitions never go backwards.
pub open spec fn shutdown_rank(s: ShutdownState) -> int {
    match s {
        ShutdownState::Running => 0,
        ShutdownState::Draining => 1,
        ShutdownState::Stopped => 2,
    }
}

/// Sequences the orderly stop: listens for the termination signals and
/// moves through Running, Draining, Stopped, in that order only.
pub struct ShutdownCoordinator {
    state: ShutdownState,
}

impl View for ShutdownCoordinator {
    type V = ShutdownState;

    closed spec fn view(&self) -> ShutdownState {
        self.state
    }
}

impl ShutdownCoordinator {
    /// A coordinator for a freshly started service.
    pub fn new() -> (r: ShutdownCoordinator)
        ensures
            r@ is Running,
    {
        ShutdownCoordinator { state: ShutdownState::Running }
    }

    /// A termination signal arrived — either of the two; the first one
    /// moves the coordinator to Draining, any other changes nothing.
    pub fn on_signal(&mut self, signal: TermSignal)
        ensures
            final(self)@ == signal_step(old(self)@),
    {
        match self.state {
            ShutdownState::Running => {
                self.state = ShutdownState::Draining;
            },
            _ => {},
        }
    }

    /// The listener has stopped accepting; once the grace delay has
    /// elapsed, the coordinator stops.
    pub fn on_drained(&mut self, grace_elapsed: bool)
        ensures
            final(self)@ == drain_step(old(self)@, grace_elapsed),
    {
        match self.state {
            ShutdownState::Draining => {
                if grace_elapsed {
                    self.state = ShutdownState::Stopped;
                }
            },
            _ => {},
        }
    }

    /// Whether a new connection may still be accepted: only while running —
    /// never after a termination signal was seen.
    pub fn accepts_new(&self) -> (r: bool)
        ensures
            r == (self@ is Running),
    {
        match self.state {
            ShutdownState::Running => true,
            _ => false,
        }
    }

    /// The current state.
    pub fn state(&self) -> (r: ShutdownState)
        ensures
            r == self@,
    {
        self.state
    }
}

/// Law: at most one signal transition fires. The first signal moves a
/// running coordinator to Draining; every further signal, from either
/// source and in any order, changes nothing.
pub proof fn lemma_single_signal_transition(s: ShutdownState)
    ensures
        s is Running ==> signal_step(s) is Draining,
        !(s is Running) ==> signal_step(s) == s,
        signal_step(signal_step(s)) == signal_step(s),
{
}

/// Law: shutdown only moves forward. Neither a signal nor the drain ever
/// takes the coordinator to an earlier state, and it stops only from
/// Draining with the grace delay elapsed.
pub proof fn lemma_shutdown_monotone(s: ShutdownState, grace_elapsed: bool)
    ensures
        shutdown_rank(signal_step(s)) >= shutdown_rank(s),
        shutdown_rank(drain_step(s, grace_elapsed)) >= shutdown_rank(s),
        drain_step(s, grace_elapsed) is Stopped ==> s is Stopped || (s is Draining
            && grace_elapsed),
{
}

} // verus!
