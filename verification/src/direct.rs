//! The direct state-change machine: transitions are keyed by (from, to)
//! pairs, and a requested change outside the declared schema is a caller
//! bug, not a recoverable outcome. Verified callers are obliged by
//! [`FSM::change_state`]'s precondition to stay inside the schema; an
//! unverified caller that strays outside it is stopped at run time before
//! any state is written.

use vstd::prelude::*;

use crate::table::{obeys_value_eq, Table};

verus! {

/// Marker for caller-defined state domains of the direct machine.
pub trait State {
}

/// A machine that enforces a fixed state-adjacency graph: one current state
/// and one schema of allowed (from, to) moves, owned exclusively. The schema
/// is fixed at construction; `change_state` is the sole mutator.
pub struct FSM<T: State + Copy + PartialEq> {
    state: T,
    schema: Table<T, T, ()>,
}

impl<T: State + Copy + PartialEq> FSM<T> {
    /// The current state of the machine.
    pub closed spec fn st(&self) -> T {
        self.state
    }

    /// The allowed moves: the set of declared (from, to) edges.
    pub closed spec fn schema_spec(&self) -> Set<(T, T)> {
        self.schema@.dom()
    }

    /// Returns the current state of the machine; pure, always succeeds.
    pub fn state(&self) -> (r: Option<&T>)
        ensures
            r matches Some(s) && *s == self.st(),
    {
        Some(&self.state)
    }

    /// Constructs a machine with the given initial state and an empty
    /// schema: no move is allowed. Always succeeds.
    pub fn new(initial: &T) -> (m: Self)
        ensures
            m.st() == *initial,
            m.schema_spec() == Set::<(T, T)>::empty(),
    {
        let m = FSM { state: *initial, schema: Table::new() };
        proof {
            assert(m.schema_spec() =~= Set::<(T, T)>::empty());
        }
        m
    }

    /// Constructs a machine with the given initial state and a schema
    /// holding exactly the given (from, to) edges; duplicates collapse and
    /// the order of the edges is irrelevant. Always succeeds.
    pub fn from_schema(initial: &T, schema: &[(T, T)]) -> (m: Self)
        ensures
            m.st() == *initial,
            m.schema_spec() == schema@.to_set(),
    {
        let mut table: Table<T, T, ()> = Table::new();
        let n: usize = schema.len();
        let mut i: usize = 0;
        while i < n
            invariant
                i <= n,
                n == schema@.len(),
                table@.dom() =~= schema@.take(i as int).to_set(),
            decreases n - i,
        {
            let edge: (T, T) = schema[i];
            table.insert(edge.0, edge.1, ());
            proof {
                broadcast use vstd::seq_lib::lemma_seq_contains_after_push;

                assert(schema@.take(i as int + 1) =~= schema@.take(i as int).push(
                    schema@[i as int],
                ));
                assert(table@.dom() =~= schema@.take(i as int + 1).to_set());
            }
            i = i + 1;
        }
        let m = FSM { state: *initial, schema: table };
        proof {
            assert(schema@.take(n as int) =~= schema@);
            assert(m.schema_spec() =~= schema@.to_set());
        }
        m
    }

    /// Commits the move from the current state to `to_state`. The move must
    /// be declared in the schema: a verified caller cannot request any
    /// other, and an unverified caller requesting one is stopped at run time
    /// with nothing changed — this path is meant to be unreachable in
    /// correct programs, deliberately unlike the event-driven machine's
    /// recoverable trigger.
    pub fn change_state(&mut self, to_state: &T)
        requires
            obeys_value_eq::<T>(),
            old(self).schema_spec().contains((old(self).st(), *to_state)),
        ensures
            final(self).st() == *to_state,
            final(self).schema_spec() == old(self).schema_spec(),
    {
        let allowed: bool = self.schema.contains(&self.state, to_state);
        if allowed {
            self.state = *to_state;
        } else {
            vstd::pervasive::unreached::<()>()
        }
    }
}

/// Law: `state` is a pure observation. Any two results it can return for
/// one and the same machine are equal, so calling it repeatedly without an
/// intervening mutator never changes its result.
pub proof fn lemma_state_idempotent<'a, T: State + Copy + PartialEq>(
    m: &'a FSM<T>,
    r1: Option<&'a T>,
    r2: Option<&'a T>,
)
    requires
        call_ensures(FSM::<T>::state, (m,), r1),
        call_ensures(FSM::<T>::state, (m,), r2),
    ensures
        r1 matches Some(s1) && r2 matches Some(s2) && *s1 == *s2,
{
}

} // verus!
