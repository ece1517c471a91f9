use vstd::prelude::*;
use vstd::string::StringExecFns;

use crate::fsm_state::FsmState;
use crate::fsm_transition::FsmTransition;

verus! {

/// A two-state switch exercising the state contract: `STOPED` and `RUNNING`
/// swap on `START` / `STOP` events, react internally to `INTERNAL` payloads
/// and pass `IGNORE` events through untouched.
#[allow(nonstandard_style)]
#[derive(Debug, Clone, Copy, PartialEq, Eq, Structural)]
pub enum SwichState {
    STOPED,
    RUNNING,
}

/// The stimuli the switch understands.
#[allow(nonstandard_style)]
#[derive(Debug, Clone, PartialEq, Eq)]
pub enum SwichEvent {
    START,
    STOP,
    INTERNAL(String),
    IGNORE,
}

/// The payload threaded through the switch's hook chain: whether the switch
/// is currently running.
#[derive(Debug, Clone, Copy, PartialEq, Eq, Structural)]
pub struct SwichContext {
    pub is_running: bool,
}

impl SwichContext {
    /// A fresh context: the switch starts out not running.
    pub fn new() -> (r: SwichContext)
        ensures
            r.is_running == false,
    {
        SwichContext { is_running: false }
    }
}

/// The switch's failure values: classification found no transition rule for
/// the event, or the do hook rejected an `INTERNAL` payload.
#[derive(Debug, Clone, PartialEq, Eq)]
pub enum SwichFsmError {
    /// No transition rule exists for this event in the current state.
    EventNotFound(SwichEvent),
    /// A hook of `state` rejected an event carrying `message`.
    Swich { state: SwichState, message: String },
}

/// The characters of an event's display form.
pub open spec fn spec_event_debug(e: SwichEvent) -> Seq<char> {
    match e {
        SwichEvent::START => "START"@,
        SwichEvent::STOP => "STOP"@,
        SwichEvent::INTERNAL(s) => "INTERNAL(\""@ + s@ + "\")"@,
        SwichEvent::IGNORE => "IGNORE"@,
    }
}

/// The characters of a state's display form.
pub open spec fn spec_state_debug(s: SwichState) -> Seq<char> {
    match s {
        SwichState::STOPED => "STOPED"@,
        SwichState::RUNNING => "RUNNING"@,
    }
}

/// The characters of an error's display form.
pub open spec fn spec_error_message(e: SwichFsmError) -> Seq<char> {
    match e {
        SwichFsmError::EventNotFound(event) => "event not found: "@ + spec_event_debug(event),
        SwichFsmError::Swich { state, message } => "state: "@ + spec_state_debug(state)
            + ", message: "@ + message@,
    }
}

/// An event's display form.
pub fn event_debug(e: &SwichEvent) -> (r: String)
    ensures
        r@ == spec_event_debug(*e),
{
    match e {
        SwichEvent::START => "START".to_owned(),
        SwichEvent::STOP => "STOP".to_owned(),
        SwichEvent::INTERNAL(s) => "INTERNAL(\"".to_owned().concat(s.as_str()).concat("\")"),
        SwichEvent::IGNORE => "IGNORE".to_owned(),
    }
}

/// A state's display form.
pub fn state_debug(s: &SwichState) -> (r: String)
    ensures
        r@ == spec_state_debug(*s),
{
    match s {
        SwichState::STOPED => "STOPED".to_owned(),
        SwichState::RUNNING => "RUNNING".to_owned(),
    }
}

impl SwichFsmError {
    /// The error's display form, for diagnosis by the caller.
    pub fn message(&self) -> (r: String)
        ensures
            r@ == spec_error_message(*self),
    {
        match self {
            SwichFsmError::EventNotFound(event) => "event not found: ".to_owned().concat(
                event_debug(event).as_str(),
            ),
            SwichFsmError::Swich { state, message } => "state: ".to_owned().concat(
                state_debug(state).as_str(),
            ).concat(", message: ").concat(message.as_str()),
        }
    }
}

impl FsmState for SwichState {
    type Event = SwichEvent;

    type Ctx = SwichContext;

    type Error = SwichFsmError;

    open spec fn spec_classify(&self, event: &SwichEvent) -> Result<
        FsmTransition<SwichState>,
        SwichFsmError,
    > {
        match *self {
            SwichState::RUNNING => match *event {
                SwichEvent::STOP => Ok(FsmTransition::External(SwichState::STOPED)),
                SwichEvent::INTERNAL(_) => Ok(FsmTransition::Internal),
                SwichEvent::IGNORE => Ok(FsmTransition::Ignore),
                SwichEvent::START => Err(SwichFsmError::EventNotFound(SwichEvent::START)),
            },
            SwichState::STOPED => match *event {
                SwichEvent::START => Ok(FsmTransition::External(SwichState::RUNNING)),
                SwichEvent::INTERNAL(_) => Ok(FsmTransition::Internal),
                SwichEvent::IGNORE => Ok(FsmTransition::Ignore),
                SwichEvent::STOP => Err(SwichFsmError::EventNotFound(SwichEvent::STOP)),
            },
        }
    }

    open spec fn spec_on_entry(&self, event: &SwichEvent, ctx: SwichContext) -> Result<
        SwichContext,
        SwichFsmError,
    > {
        match *self {
            SwichState::RUNNING => Ok(SwichContext { is_running: true }),
            SwichState::STOPED => Ok(SwichContext { is_running: false }),
        }
    }

    open spec fn spec_on_do(&self, event: &SwichEvent, ctx: SwichContext) -> Result<
        SwichContext,
        SwichFsmError,
    > {
        match *self {
            SwichState::RUNNING => Ok(ctx),
            SwichState::STOPED => match *event {
                SwichEvent::INTERNAL(v) => if v@ == "ERROR"@ {
                    Err(SwichFsmError::Swich { state: SwichState::STOPED, message: v })
                } else {
                    Ok(ctx)
                },
                _ => Ok(ctx),
            },
        }
    }

    open spec fn spec_on_exit(&self, event: &SwichEvent, ctx: SwichContext) -> Result<
        SwichContext,
        SwichFsmError,
    > {
        Ok(ctx)
    }

    fn self_handle(&self) -> (r: SwichState) {
        *self
    }

    fn to_transition(&self, event: &SwichEvent) -> (r: Result<
        FsmTransition<SwichState>,
        SwichFsmError,
    >) {
        match self {
            SwichState::RUNNING => match event {
                SwichEvent::STOP => Ok(FsmTransition::External(SwichState::STOPED)),
                SwichEvent::INTERNAL(_) => Ok(FsmTransition::Internal),
                SwichEvent::IGNORE => Ok(FsmTransition::Ignore),
                SwichEvent::START => Err(SwichFsmError::EventNotFound(SwichEvent::START)),
            },
            SwichState::STOPED => match event {
                SwichEvent::START => Ok(FsmTransition::External(SwichState::RUNNING)),
                SwichEvent::INTERNAL(_) => Ok(FsmTransition::Internal),
                SwichEvent::IGNORE => Ok(FsmTransition::Ignore),
                SwichEvent::STOP => Err(SwichFsmError::EventNotFound(SwichEvent::STOP)),
            },
        }
    }

    fn on_entry(&self, _event: &SwichEvent, _ctx: SwichContext) -> (r: Result<
        SwichContext,
        SwichFsmError,
    >) {
        match self {
            SwichState::RUNNING => Ok(SwichContext { is_running: true }),
            SwichState::STOPED => Ok(SwichContext { is_running: false }),
        }
    }

    fn on_do(&self, event: &SwichEvent, ctx: SwichContext) -> (r: Result<
        SwichContext,
        SwichFsmError,
    >) {
        match self {
            SwichState::RUNNING => Ok(ctx),
            SwichState::STOPED => match event {
                SwichEvent::INTERNAL(v) => {
                    let needle: String = "ERROR".to_owned();
                    if *v == needle {
                        Err(SwichFsmError::Swich {
                            state: SwichState::STOPED,
                            message: v.clone(),
                        })
                    } else {
                        Ok(ctx)
                    }
                },
                _ => Ok(ctx),
            },
        }
    }

    fn on_exit(&self, _event: &SwichEvent, ctx: SwichContext) -> (r: Result<
        SwichContext,
        SwichFsmError,
    >) {
        Ok(ctx)
    }
}

} // verus!

