use vstd::prelude::*;

use crate::fsm_transition::FsmTransition;

verus! {

/// The state capability contract.
///
/// A concrete state type supplies a pure classification of events into
/// transition kinds (`spec_classify` / `to_transition`) and three lifecycle
/// hooks (`on_entry`, `on_do`, `on_exit`), each taking the event read-only
/// and the context by ownership and returning the updated context or an
/// error. The dispatch algorithm [`FsmState::fire`] comes with a default
/// body whose behaviour is pinned down, for every implementation, by the
/// spec function [`spec_fire`].
///
/// Every participant type is application-defined and opaque to the engine:
/// the engine never inspects an event, a context or an error, it only moves
/// them. States must be safely transferable across threads so that a chain
/// of dispatch calls can hop between workers by ownership transfer.
pub trait FsmState: Sized + Send {
    /// The stimulus consumed by classification and by every hook.
    type Event;

    /// The mutable payload threaded by ownership through the hook chain.
    type Ctx;

    /// The application-defined failure value of classification and hooks.
    type Error;

    /// What classification returns for this state and an event: a pure
    /// function of (state, event), so equal inputs always classify equally.
    spec fn spec_classify(&self, event: &Self::Event) -> Result<
        FsmTransition<Self>,
        Self::Error,
    >;

    /// What the entry hook returns for this state, an event and a context.
    spec fn spec_on_entry(&self, event: &Self::Event, ctx: Self::Ctx) -> Result<
        Self::Ctx,
        Self::Error,
    >;

    /// What the do hook returns for this state, an event and a context.
    spec fn spec_on_do(&self, event: &Self::Event, ctx: Self::Ctx) -> Result<
        Self::Ctx,
        Self::Error,
    >;

    /// What the exit hook returns for this state, an event and a context.
    spec fn spec_on_exit(&self, event: &Self::Event, ctx: Self::Ctx) -> Result<
        Self::Ctx,
        Self::Error,
    >;

    /// An owned, independent copy of this state, so that dispatch can return
    /// a state that outlives the borrowed receiver it was invoked on.
    fn self_handle(&self) -> (r: Self)
        ensures
            r == *self,
    ;

    /// Classifies an event from this state. Returns the transition kind, or
    /// an error when no transition rule exists for this (state, event) pair.
    fn to_transition(&self, event: &Self::Event) -> (r: Result<
        FsmTransition<Self>,
        Self::Error,
    >)
        ensures
            r == self.spec_classify(event),
    ;

    /// Runs once when this state becomes current via an external transition,
    /// before `on_do`, on the destination state.
    fn on_entry(&self, event: &Self::Event, ctx: Self::Ctx) -> (r: Result<
        Self::Ctx,
        Self::Error,
    >)
        ensures
            r == self.spec_on_entry(event, ctx),
    ;

    /// Runs for internal transitions on the current state, and as the step
    /// following `on_entry` for external transitions on the destination.
    fn on_do(&self, event: &Self::Event, ctx: Self::Ctx) -> (r: Result<
        Self::Ctx,
        Self::Error,
    >)
        ensures
            r == self.spec_on_do(event, ctx),
    ;

    /// Runs only for external transitions, on the state being left, before
    /// the destination's `on_entry`.
    fn on_exit(&self, event: &Self::Event, ctx: Self::Ctx) -> (r: Result<
        Self::Ctx,
        Self::Error,
    >)
        ensures
            r == self.spec_on_exit(event, ctx),
    ;

    /// The dispatch algorithm: classifies the event and invokes the hooks
    /// implied by the transition kind, threading the context through them in
    /// order and short-circuiting on the first error. Always yields exactly
    /// one successor state on success; the free spec function [`spec_fire`]
    /// states this same result as one function of (state, event, context),
    /// so repeated calls on equal inputs yield equal outputs.
    ///
    /// When a hook fails partway through an external transition, the
    /// partially advanced context is discarded: the hook's error alone is
    /// returned, and no rollback to the pre-call context is attempted.
    fn fire(&self, event: Self::Event, ctx: Self::Ctx) -> (r: Result<
        (Self, Self::Ctx),
        Self::Error,
    >)
        ensures
            r == (match self.spec_classify(&event) {
                Err(err) => Result::<(Self, Self::Ctx), Self::Error>::Err(err),
                Ok(FsmTransition::Ignore) => Ok((*self, ctx)),
                Ok(FsmTransition::Internal) => match self.spec_on_do(&event, ctx) {
                    Ok(c) => Ok((*self, c)),
                    Err(err) => Err(err),
                },
                Ok(FsmTransition::External(next)) => match self.spec_on_exit(&event, ctx) {
                    Err(err) => Err(err),
                    Ok(c) => match next.spec_on_entry(&event, c) {
                        Err(err) => Err(err),
                        Ok(c) => match next.spec_on_do(&event, c) {
                            Err(err) => Err(err),
                            Ok(c) => Ok((next, c)),
                        },
                    },
                },
            }),
    {
        let transition = match self.to_transition(&event) {
            Ok(v) => v,
            Err(err) => {
                return Err(err);
            },
        };
        match transition {
            FsmTransition::Ignore => Ok((self.self_handle(), ctx)),
            FsmTransition::Internal => match self.on_do(&event, ctx) {
                Ok(ctx) => Ok((self.self_handle(), ctx)),
                Err(err) => Err(err),
            },
            FsmTransition::External(state) => {
                let ctx = match self.on_exit(&event, ctx) {
                    Ok(ctx) => ctx,
                    Err(err) => {
                        return Err(err);
                    },
                };
                let ctx = match state.on_entry(&event, ctx) {
                    Ok(ctx) => ctx,
                    Err(err) => {
                        return Err(err);
                    },
                };
                let ctx = match state.on_do(&event, ctx) {
                    Ok(ctx) => ctx,
                    Err(err) => {
                        return Err(err);
                    },
                };
                Ok((state, ctx))
            },
        }
    }
}

/// The result of one dispatch call, as a function of (state, event, context).
/// This is the value that [`FsmState::fire`] promises to return; the laws in
/// [`crate::laws`] are stated over it. In detail:
///
/// - classification failure returns that error, and no hook runs;
/// - `Ignore` passes state and context through unchanged;
/// - `Internal` threads the context through the current state's do hook;
/// - `External(next)` threads the context through exit (on the old state),
///   then entry and do (on the destination), in that order, short-circuiting
///   on the first hook error.
pub open spec fn spec_fire<S: FsmState>(s: S, event: S::Event, ctx: S::Ctx) -> Result<
    (S, S::Ctx),
    S::Error,
> {
    match s.spec_classify(&event) {
        Err(err) => Err(err),
        Ok(FsmTransition::Ignore) => Ok((s, ctx)),
        Ok(FsmTransition::Internal) => match s.spec_on_do(&event, ctx) {
            Ok(ctx) => Ok((s, ctx)),
            Err(err) => Err(err),
        },
        Ok(FsmTransition::External(next)) => match s.spec_on_exit(&event, ctx) {
            Err(err) => Err(err),
            Ok(ctx) => match next.spec_on_entry(&event, ctx) {
                Err(err) => Err(err),
                Ok(ctx) => match next.spec_on_do(&event, ctx) {
                    Err(err) => Err(err),
                    Ok(ctx) => Ok((next, ctx)),
                },
            },
        },
    }
}

} // verus!
