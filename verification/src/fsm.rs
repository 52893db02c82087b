//! The event-driven machine: transitions are keyed by (current state, event)
//! pairs, and an event with no declared transition is an ordinary,
//! recoverable outcome — the caller gets it back and the state is unchanged.

use vstd::prelude::*;

use crate::table::{obeys_value_eq, Table};

verus! {

/// A zero-argument, side-effect-only operation attached to a transition and
/// executed exactly once per successful trigger, before the state is updated.
///
/// Implementations are supplied by the caller and must be total: the machine
/// is not required to survive an action that panics, and an action must not
/// re-enter the machine it is attached to.
pub trait Action {
    /// Performs the side effect.
    fn call(&self);
}

/// The action that does nothing, for transitions that only move the state.
impl Action for () {
    fn call(&self) {
    }
}

/// An edge of the allowed-moves table: the state the machine moves to, and
/// an optional action to run on the way.
pub struct Transition<S: Copy, A> {
    next_state: S,
    action: Option<A>,
}

impl<S: Copy, A> Transition<S, A> {
    /// The state this transition moves the machine to.
    pub closed spec fn next(&self) -> S {
        self.next_state
    }

    /// Whether an action is attached to this transition.
    pub closed spec fn has_action(&self) -> bool {
        self.action is Some
    }

    /// Builds a transition to `next_state`, running `action` on the way if
    /// one is given.
    pub fn create(next_state: S, action: Option<A>) -> (t: Self)
        ensures
            t.next() == next_state,
            t.has_action() == action.is_some(),
    {
        Self { next_state, action }
    }
}

/// The recoverable outcome of a trigger with no declared transition: the
/// machine's state is unchanged, and the offending state and event are
/// carried for the caller's diagnostics.
pub struct NoTransition<S, E> {
    /// The state the machine was, and stays, in.
    pub state: S,
    /// The event that no transition is declared for.
    pub event: E,
}

/// The state each key of `table` moves the machine to, with the attached
/// actions stripped away.
pub open spec fn next_states<S: Copy, E, A>(table: Map<(S, E), Transition<S, A>>) -> Map<
    (S, E),
    S,
> {
    table.map_values(|t: Transition<S, A>| t.next())
}

/// An event-driven finite state machine over states `S`, events `E` and
/// actions `A`.
///
/// The machine is abstractly a current state (`st`) plus an immutable table
/// (`table`) mapping (state, event) pairs to next states; `trigger` is the
/// sole mutator and moves only along the table.
pub trait FSM<S: Copy + PartialEq, E: Copy + PartialEq, A: Action>: Sized {
    /// The current state of the machine.
    spec fn st(&self) -> S;

    /// The allowed moves: which (state, event) pairs step to which state.
    spec fn table(&self) -> Map<(S, E), S>;

    /// Initializes the machine with an initial state and transition table.
    /// The table is not validated (it may name unreachable states or
    /// events); construction always succeeds.
    fn initialize(initial: S, transitions: Table<S, E, Transition<S, A>>) -> (m: Self)
        ensures
            m.st() == initial,
            m.table() == next_states(transitions@),
    ;

    /// Triggers an event. If the table declares a transition for the current
    /// state and this event, its action (if any) runs exactly once, then the
    /// machine commits the transition's next state. Otherwise nothing
    /// changes and the caller gets the offending pair back.
    fn trigger(&mut self, event: E) -> (r: Result<(), NoTransition<S, E>>)
        requires
            obeys_value_eq::<S>(),
            obeys_value_eq::<E>(),
        ensures
            final(self).table() == old(self).table(),
            match r {
                Ok(()) => old(self).table().contains_key((old(self).st(), event))
                    && final(self).st() == old(self).table()[(old(self).st(), event)],
                Err(e) => !old(self).table().contains_key((old(self).st(), event))
                    && final(self).st() == old(self).st()
                    && e.state == old(self).st()
                    && e.event == event,
            },
    ;

    /// Returns the current state of the machine; pure, always succeeds.
    fn state(&self) -> (s: S)
        ensures
            s == self.st(),
    ;
}

/// The table-driven implementation of [`FSM`]: one current state and one
/// transition table, owned exclusively.
pub struct StateMachine<S: Copy, E: Copy, A> {
    state: S,
    transitions: Table<S, E, Transition<S, A>>,
}

impl<S: Copy + PartialEq, E: Copy + PartialEq, A: Action> FSM<S, E, A> for StateMachine<
    S,
    E,
    A,
> {
    closed spec fn st(&self) -> S {
        self.state
    }

    closed spec fn table(&self) -> Map<(S, E), S> {
        next_states(self.transitions@)
    }

    fn initialize(initial: S, transitions: Table<S, E, Transition<S, A>>) -> (m: Self) {
        Self { state: initial, transitions }
    }

    fn trigger(&mut self, event: E) -> (r: Result<(), NoTransition<S, E>>) {
        let cur: S = self.state;
        proof {
            assert(self.table().dom() =~= self.transitions@.dom());
        }
        match self.transitions.get(&cur, &event) {
            Some(transition) => {
                if let Some(action) = &transition.action {
                    action.call();
                }
                let next: S = transition.next_state;
                self.state = next;
                Ok(())
            },
            None => Err(NoTransition { state: cur, event }),
        }
    }

    fn state(&self) -> (s: S) {
        self.state
    }
}

/// Law: `state` is a pure observation. Any two results it can return for
/// one and the same machine are equal, so calling it repeatedly without an
/// intervening mutator never changes its result.
pub proof fn lemma_state_idempotent<S: Copy + PartialEq, E: Copy + PartialEq, A: Action>(
    m: &StateMachine<S, E, A>,
    r1: S,
    r2: S,
)
    requires
        call_ensures(StateMachine::<S, E, A>::state, (m,), r1),
        call_ensures(StateMachine::<S, E, A>::state, (m,), r2),
    ensures
        r1 == r2,
{
}

} // verus!
