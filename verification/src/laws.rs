use vstd::prelude::*;

use crate::fsm_state::FsmState;
use crate::fsm_state::spec_fire;
use crate::fsm_transition::FsmTransition;

verus! {

/// When classification yields `Ignore`, dispatch returns the state and the
/// context unchanged, whatever the hooks would do: no hook takes part in the
/// result.
pub proof fn lemma_fire_ignore<S: FsmState>(s: S, event: S::Event, ctx: S::Ctx)
    requires
        s.spec_classify(&event) == Result::<FsmTransition<S>, S::Error>::Ok(
            FsmTransition::Ignore,
        ),
    ensures
        spec_fire(s, event, ctx) == Result::<(S, S::Ctx), S::Error>::Ok((s, ctx)),
{
}

/// When classification yields `Internal`, dispatch is decided by the current
/// state's do hook alone: the state is unchanged, the context is whatever
/// that one hook returns, and a hook error is returned as is.
pub proof fn lemma_fire_internal<S: FsmState>(s: S, event: S::Event, ctx: S::Ctx)
    requires
        s.spec_classify(&event) == Result::<FsmTransition<S>, S::Error>::Ok(
            FsmTransition::Internal,
        ),
    ensures
        spec_fire(s, event, ctx) == (match s.spec_on_do(&event, ctx) {
            Ok(c) => Result::<(S, S::Ctx), S::Error>::Ok((s, c)),
            Err(err) => Result::<(S, S::Ctx), S::Error>::Err(err),
        }),
{
}

/// When classification yields `External(next)`, dispatch threads the context
/// through exactly three hooks in order — exit on the old state, then entry
/// and do on the destination — short-circuits on the first hook error, and
/// on success returns the destination state with the final context.
pub proof fn lemma_fire_external<S: FsmState>(s: S, next: S, event: S::Event, ctx: S::Ctx)
    requires
        s.spec_classify(&event) == Result::<FsmTransition<S>, S::Error>::Ok(
            FsmTransition::External(next),
        ),
    ensures
        spec_fire(s, event, ctx) == (match s.spec_on_exit(&event, ctx) {
            Err(err) => Result::<(S, S::Ctx), S::Error>::Err(err),
            Ok(c1) => match next.spec_on_entry(&event, c1) {
                Err(err) => Result::<(S, S::Ctx), S::Error>::Err(err),
                Ok(c2) => match next.spec_on_do(&event, c2) {
                    Err(err) => Result::<(S, S::Ctx), S::Error>::Err(err),
                    Ok(c3) => Result::<(S, S::Ctx), S::Error>::Ok((next, c3)),
                },
            },
        }),
{
}

/// When classification fails, dispatch returns that very error: no hook
/// takes part in the result.
pub proof fn lemma_fire_classification_error<S: FsmState>(
    s: S,
    event: S::Event,
    ctx: S::Ctx,
    err: S::Error,
)
    requires
        s.spec_classify(&event) == Result::<FsmTransition<S>, S::Error>::Err(err),
    ensures
        spec_fire(s, event, ctx) == Result::<(S, S::Ctx), S::Error>::Err(err),
{
}

/// When the exit hook of an external transition fails, dispatch returns that
/// hook's error: the destination's entry and do hooks take no part in the
/// result.
pub proof fn lemma_fire_exit_error<S: FsmState>(
    s: S,
    next: S,
    event: S::Event,
    ctx: S::Ctx,
    err: S::Error,
)
    requires
        s.spec_classify(&event) == Result::<FsmTransition<S>, S::Error>::Ok(
            FsmTransition::External(next),
        ),
        s.spec_on_exit(&event, ctx) == Result::<S::Ctx, S::Error>::Err(err),
    ensures
        spec_fire(s, event, ctx) == Result::<(S, S::Ctx), S::Error>::Err(err),
{
}

/// When the destination's entry hook fails after a successful exit hook,
/// dispatch returns the entry hook's error: the destination's do hook takes
/// no part in the result.
pub proof fn lemma_fire_entry_error<S: FsmState>(
    s: S,
    next: S,
    event: S::Event,
    ctx: S::Ctx,
    c1: S::Ctx,
    err: S::Error,
)
    requires
        s.spec_classify(&event) == Result::<FsmTransition<S>, S::Error>::Ok(
            FsmTransition::External(next),
        ),
        s.spec_on_exit(&event, ctx) == Result::<S::Ctx, S::Error>::Ok(c1),
        next.spec_on_entry(&event, c1) == Result::<S::Ctx, S::Error>::Err(err),
    ensures
        spec_fire(s, event, ctx) == Result::<(S, S::Ctx), S::Error>::Err(err),
{
}

/// When the destination's do hook fails after successful exit and entry
/// hooks, dispatch returns the do hook's error.
pub proof fn lemma_fire_do_error<S: FsmState>(
    s: S,
    next: S,
    event: S::Event,
    ctx: S::Ctx,
    c1: S::Ctx,
    c2: S::Ctx,
    err: S::Error,
)
    requires
        s.spec_classify(&event) == Result::<FsmTransition<S>, S::Error>::Ok(
            FsmTransition::External(next),
        ),
        s.spec_on_exit(&event, ctx) == Result::<S::Ctx, S::Error>::Ok(c1),
        next.spec_on_entry(&event, c1) == Result::<S::Ctx, S::Error>::Ok(c2),
        next.spec_on_do(&event, c2) == Result::<S::Ctx, S::Error>::Err(err),
    ensures
        spec_fire(s, event, ctx) == Result::<(S, S::Ctx), S::Error>::Err(err),
{
}

/// Dispatch is deterministic: any two results that meet the contract of
/// `fire` for identical (state, event, context) inputs are identical.
pub proof fn lemma_fire_deterministic<S: FsmState>(
    s: S,
    event: S::Event,
    ctx: S::Ctx,
    r1: Result<(S, S::Ctx), S::Error>,
    r2: Result<(S, S::Ctx), S::Error>,
)
    requires
        r1 == spec_fire(s, event, ctx),
        r2 == spec_fire(s, event, ctx),
    ensures
        r1 == r2,
{
}

} // verus!
