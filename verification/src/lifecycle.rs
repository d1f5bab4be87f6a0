//! The lifecycle of an adapter and of its worker: a totally ordered chain of
//! states that is only ever walked forward, one step at a time.

use vstd::prelude::*;

verus! {

/// The states of the protocol front-end, in order.
#[derive(Clone, Copy, Debug, PartialEq, Eq, PartialOrd, Ord, Hash, Structural)]
pub enum State {
    /// No `initialize` request has been received.
    Uninitialized,
    /// An `initialize` request has been received but not yet answered.
    Initializing,
    /// The `initialize` request has been answered with success.
    Initialized,
    /// A shutdown has been requested.
    ShutDown,
    /// The exit has been acknowledged.
    Exited,
}

impl State {
    /// Position of the state in the chain, counted from zero.
    pub open spec fn rank(self) -> int {
        match self {
            State::Uninitialized => 0,
            State::Initializing => 1,
            State::Initialized => 2,
            State::ShutDown => 3,
            State::Exited => 4,
        }
    }

    /// The state that follows this one, if there is one.
    pub open spec fn next(self) -> Option<State> {
        match self {
            State::Uninitialized => Some(State::Initializing),
            State::Initializing => Some(State::Initialized),
            State::Initialized => Some(State::ShutDown),
            State::ShutDown => Some(State::Exited),
            State::Exited => None,
        }
    }

    /// Whether a single legal transition leads from `self` to `target`.
    pub open spec fn steps_to(self, target: State) -> bool {
        target.rank() == self.rank() + 1
    }

    /// Where an attempt to move to `target` leaves the lifecycle: at
    /// `target` if that is a legal transition, else where it was.
    pub open spec fn advance(self, target: State) -> State {
        if self.steps_to(target) {
            target
        } else {
            self
        }
    }

    /// Where a shutdown leaves the lifecycle.
    pub open spec fn halted(self) -> State {
        if self.rank() < State::ShutDown.rank() {
            State::ShutDown
        } else {
            self
        }
    }

    /// The position of the state as a machine integer.
    pub fn index(self) -> (r: u8)
        ensures
            r == self.rank(),
    {
        match self {
            State::Uninitialized => 0,
            State::Initializing => 1,
            State::Initialized => 2,
            State::ShutDown => 3,
            State::Exited => 4,
        }
    }

    /// The state at a position, if the position names one.
    pub fn from_index(index: u8) -> (r: Option<State>)
        ensures
            index <= 4 <==> r is Some,
            r matches Some(s) ==> s.rank() == index,
    {
        match index {
            0 => Some(State::Uninitialized),
            1 => Some(State::Initializing),
            2 => Some(State::Initialized),
            3 => Some(State::ShutDown),
            4 => Some(State::Exited),
            _ => None,
        }
    }

    /// The state that follows this one; `None` at the end of the chain.
    pub fn successor(self) -> (r: Option<State>)
        ensures
            r == self.next(),
            r matches Some(s) ==> self.steps_to(s),
            r is None <==> self == State::Exited,
    {
        match self {
            State::Uninitialized => Some(State::Initializing),
            State::Initializing => Some(State::Initialized),
            State::Initialized => Some(State::ShutDown),
            State::ShutDown => Some(State::Exited),
            State::Exited => None,
        }
    }

    /// Whether a single legal transition leads from `self` to `target`.
    pub fn precedes(self, target: State) -> (r: bool)
        ensures
            r == self.steps_to(target),
    {
        let here: u8 = self.index();
        let there: u8 = target.index();
        there == here + 1
    }

    /// Whether the state lies strictly before `other` in the chain.
    pub fn before(self, other: State) -> (r: bool)
        ensures
            r == (self.rank() < other.rank()),
    {
        self.index() < other.index()
    }

    /// Whether the adapter still serves requests: it has not been shut down.
    pub fn is_live(self) -> (r: bool)
        ensures
            r == (self.rank() < State::ShutDown.rank()),
    {
        self.index() < 3
    }
}

/// States with the same position are the same state.
pub proof fn lemma_state_rank_is_injective(a: State, b: State)
    requires
        a.rank() == b.rank(),
    ensures
        a == b,
{
}

/// A legal transition has exactly one target: the successor.
pub proof fn lemma_state_step_is_unique(a: State, b: State)
    requires
        a.steps_to(b),
    ensures
        a.next() == Some(b),
{
}

/// The states of the debugger worker, in order.
#[derive(Clone, Copy, Debug, PartialEq, Eq, PartialOrd, Ord, Hash, Structural)]
pub enum DebuggerState {
    /// No `initialize` request has been received.
    Uninitialized,
    /// An `initialize` request has been received but not yet answered.
    Initializing,
    /// The `initialize` request has been answered with success.
    Initialized,
    /// A shutdown has been requested.
    ShutDown,
    /// The exit has been acknowledged.
    Exited,
}

impl DebuggerState {
    /// Position of the state in the chain, counted from zero.
    pub open spec fn rank(self) -> int {
        match self {
            DebuggerState::Uninitialized => 0,
            DebuggerState::Initializing => 1,
            DebuggerState::Initialized => 2,
            DebuggerState::ShutDown => 3,
            DebuggerState::Exited => 4,
        }
    }

    /// The position of the state as a machine integer.
    pub fn index(self) -> (r: u8)
        ensures
            r == self.rank(),
    {
        match self {
            DebuggerState::Uninitialized => 0,
            DebuggerState::Initializing => 1,
            DebuggerState::Initialized => 2,
            DebuggerState::ShutDown => 3,
            DebuggerState::Exited => 4,
        }
    }

    /// Whether the worker still takes commands: it has not been shut down.
    pub fn is_live(self) -> (r: bool)
        ensures
            r == (self.rank() < DebuggerState::ShutDown.rank()),
    {
        self.index() < 3
    }
}

} // verus!
