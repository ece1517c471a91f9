use fsm_core::FsmState;
use fsm_core::FsmTransition;
use fsm_core::switch_fsm::SwichContext;
use fsm_core::switch_fsm::SwichEvent;
use fsm_core::switch_fsm::SwichFsmError;
use fsm_core::switch_fsm::SwichState;

#[test]
fn swich() {
    let ctx = SwichContext::new();

    //SwichState::STOPED
    let state = SwichState::STOPED;
    assert_eq!(&ctx.is_running, &false);
    assert_eq!(format!("{:?}", &state), "STOPED".to_string());

    //SwichState::RUNNING
    let (state, ctx) = state.fire(SwichEvent::START, ctx).unwrap();
    assert_eq!(format!("{:?}", &state), "RUNNING".to_string());
    assert_eq!(&ctx.is_running, &true);

    //SwichState::RUNNING
    let (state, ctx) = state
        .fire(SwichEvent::INTERNAL("hello world.".to_string()), ctx)
        .unwrap();
    assert_eq!(&ctx.is_running, &true);

    //SwichState::RUNNING
    let (state, ctx) = state.fire(SwichEvent::IGNORE, ctx).unwrap();
    assert_eq!(&ctx.is_running, &true);

    //SwichState::STOPED
    let result = state.fire(SwichEvent::STOP, ctx);
    assert_eq!(result.is_ok(), true);

    //SwichState::STOPED
    let (state, ctx) = result.unwrap();
    let result = state.fire(SwichEvent::STOP, ctx);
    match result {
        Err(v) => assert_eq!(v.message(), "event not found: STOP".to_string()),
        Ok((v, _)) => {
            panic!("state: {:?}, event: {:?}", v, SwichEvent::STOP)
        }
    }
}

#[test]
fn error() {
    let ctx = SwichContext::new();

    let state = SwichState::STOPED;
    let event = SwichEvent::INTERNAL("ERROR".to_string());
    let result = state.fire(event.clone(), ctx);
    match result {
        Ok(v) => panic!("state: {:?}, event: {:?}", v, &event),
        Err(v) => assert_eq!(v.message(), "state: STOPED, message: ERROR"),
    }
}

#[test]
fn ignore_returns_state_and_context_unchanged() {
    let ctx = SwichContext { is_running: true };
    let (state, out) = SwichState::RUNNING.fire(SwichEvent::IGNORE, ctx).unwrap();
    assert_eq!(state, SwichState::RUNNING);
    assert_eq!(out, ctx);

    let ctx = SwichContext { is_running: false };
    let (state, out) = SwichState::STOPED.fire(SwichEvent::IGNORE, ctx).unwrap();
    assert_eq!(state, SwichState::STOPED);
    assert_eq!(out, ctx);
}

#[test]
fn internal_keeps_the_state() {
    let ctx = SwichContext { is_running: true };
    let (state, out) = SwichState::RUNNING
        .fire(SwichEvent::INTERNAL("hello".to_string()), ctx)
        .unwrap();
    assert_eq!(state, SwichState::RUNNING);
    assert_eq!(out, ctx);

    let ctx = SwichContext { is_running: false };
    let (state, out) = SwichState::STOPED
        .fire(SwichEvent::INTERNAL("hello".to_string()), ctx)
        .unwrap();
    assert_eq!(state, SwichState::STOPED);
    assert_eq!(out, ctx);
}

#[test]
fn external_transition_runs_the_hook_chain() {
    // STOPED --START--> RUNNING: the destination's entry hook sets the flag.
    let ctx = SwichContext { is_running: false };
    let (state, out) = SwichState::STOPED.fire(SwichEvent::START, ctx).unwrap();
    assert_eq!(state, SwichState::RUNNING);
    assert_eq!(out.is_running, true);

    // RUNNING --STOP--> STOPED: the destination's entry hook clears the flag.
    let ctx = SwichContext { is_running: true };
    let (state, out) = SwichState::RUNNING.fire(SwichEvent::STOP, ctx).unwrap();
    assert_eq!(state, SwichState::STOPED);
    assert_eq!(out.is_running, false);
}

#[test]
fn classification_error_aborts_dispatch() {
    let ctx = SwichContext { is_running: true };
    let result = SwichState::RUNNING.fire(SwichEvent::START, ctx);
    match result {
        Err(v) => {
            assert_eq!(v, SwichFsmError::EventNotFound(SwichEvent::START));
            assert_eq!(v.message(), "event not found: START");
        }
        Ok(_) => panic!("classification should have failed"),
    }
}

#[test]
fn hook_error_is_returned_verbatim() {
    let ctx = SwichContext::new();
    let result = SwichState::STOPED.fire(SwichEvent::INTERNAL("ERROR".to_string()), ctx);
    match result {
        Err(SwichFsmError::Swich { state, message }) => {
            assert_eq!(state, SwichState::STOPED);
            assert_eq!(message, "ERROR");
        }
        other => panic!("expected the do hook's error, got {:?}", other),
    }
}

#[test]
fn fire_is_deterministic() {
    let ctx = SwichContext { is_running: false };
    let event = SwichEvent::INTERNAL("hello".to_string());
    let first = SwichState::STOPED.fire(event.clone(), ctx);
    let second = SwichState::STOPED.fire(event, ctx);
    assert_eq!(first, second);
}

#[test]
fn to_transition_classifies_each_event() {
    assert!(matches!(
        SwichState::STOPED.to_transition(&SwichEvent::START),
        Ok(FsmTransition::External(SwichState::RUNNING))
    ));
    assert!(matches!(
        SwichState::STOPED.to_transition(&SwichEvent::INTERNAL("x".to_string())),
        Ok(FsmTransition::Internal)
    ));
    assert!(matches!(
        SwichState::STOPED.to_transition(&SwichEvent::IGNORE),
        Ok(FsmTransition::Ignore)
    ));
    assert!(matches!(
        SwichState::STOPED.to_transition(&SwichEvent::STOP),
        Err(SwichFsmError::EventNotFound(SwichEvent::STOP))
    ));
    assert!(matches!(
        SwichState::RUNNING.to_transition(&SwichEvent::STOP),
        Ok(FsmTransition::External(SwichState::STOPED))
    ));
    assert!(matches!(
        SwichState::RUNNING.to_transition(&SwichEvent::START),
        Err(SwichFsmError::EventNotFound(SwichEvent::START))
    ));
}

#[test]
fn self_handle_copies_the_state() {
    assert_eq!(SwichState::RUNNING.self_handle(), SwichState::RUNNING);
    assert_eq!(SwichState::STOPED.self_handle(), SwichState::STOPED);
}

#[test]
fn new_context_is_not_running() {
    assert_eq!(SwichContext::new().is_running, false);
}

#[test]
fn error_messages_name_the_event_payload() {
    let err = SwichFsmError::EventNotFound(SwichEvent::INTERNAL("hello".to_string()));
    assert_eq!(err.message(), "event not found: INTERNAL(\"hello\")");
    let err = SwichFsmError::Swich {
        state: SwichState::RUNNING,
        message: "boom".to_string(),
    };
    assert_eq!(err.message(), "state: RUNNING, message: boom");
}

#[test]
fn running_do_hook_accepts_the_error_payload() {
    // Only STOPED's do hook rejects the "ERROR" payload; RUNNING's accepts it.
    let ctx = SwichContext { is_running: true };
    let (state, out) = SwichState::RUNNING
        .fire(SwichEvent::INTERNAL("ERROR".to_string()), ctx)
        .unwrap();
    assert_eq!(state, SwichState::RUNNING);
    assert_eq!(out, ctx);
}
