use vstd::prelude::*;

verus! {

/// How a state reacts to an event, computed once per dispatch call from
/// (current state, event).
#[derive(Debug)]
pub enum FsmTransition<S> {
    /// No hook runs; state and context pass through the dispatch unchanged.
    Ignore,
    /// Only the current state's `on_do` hook runs; the state is unchanged.
    Internal,
    /// A transition to a different, already-constructed state supplied by
    /// the classifying state itself.
    External(S),
}

} // verus!
