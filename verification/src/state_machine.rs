//! State machines as pure functions from a state and a transition to the
//! next state.

use vstd::prelude::*;

verus! {

/// A state machine: a set of states, a set of transitions, and a function
/// that says which state follows a state under a transition.
pub trait StateMachine {
    /// The states the machine can be in.
    type State;

    /// What can happen to the machine.
    type Transition;

    /// The state that follows `state` under `transition`.
    spec fn spec_next_state(state: Self::State, transition: Self::Transition) -> Self::State;

    /// Computes the state that follows `starting_state` under `t`.
    fn next_state(starting_state: &Self::State, t: &Self::Transition) -> (next: Self::State)
        ensures
            next == Self::spec_next_state(*starting_state, *t),
    ;
}

} // verus!
