use hdf5_rs::error::{ErrorRecord, Frame};
use hdf5_rs::guard::{call_guarded, Convention, Ending, GuardAction, GuardEvent, GuardedCall};
use hdf5_rs::ident::INVALID_ID;

fn frame(description: &str) -> Frame {
    Frame {
        description: description.to_string(),
        function: "read".to_string(),
        file: "io.c".to_string(),
        line: "7".to_string(),
        major: 3,
        minor: 30,
    }
}

fn run(convention: Convention, events: Vec<GuardEvent>) -> (GuardedCall, Vec<GuardAction>) {
    let mut state = GuardedCall::new(convention);
    let mut actions = Vec::new();
    for event in events {
        let (next, action) = call_guarded(state, event);
        state = next;
        actions.push(action);
    }
    (state, actions)
}

#[test]
fn negative_convention_rejects_negatives_only() {
    let convention = Convention::NegativeFails;
    assert!(convention.is_failure(-1));
    assert!(convention.is_failure(-2));
    assert!(convention.is_failure(i64::MIN));
    assert!(!convention.is_failure(0));
    assert!(!convention.is_failure(1));
    assert!(!convention.is_failure(i64::MAX));
}

#[test]
fn identifier_convention_rejects_the_invalid_identifier_only() {
    let convention = Convention::InvalidIdFails;
    assert_eq!(INVALID_ID, -1);
    assert!(convention.is_failure(INVALID_ID));
    assert!(!convention.is_failure(-2));
    assert!(!convention.is_failure(0));
    assert!(!convention.is_failure(72057594037927936));
    assert!(!convention.is_failure(i64::MIN));
}

#[test]
fn new_call_is_idle() {
    assert_eq!(
        GuardedCall::new(Convention::InvalidIdFails),
        GuardedCall::Idle { convention: Convention::InvalidIdFails }
    );
}

#[test]
fn successful_call_takes_lock_calls_and_returns_value() {
    let (state, actions) = run(
        Convention::NegativeFails,
        vec![
            GuardEvent::Start,
            GuardEvent::Acquired,
            GuardEvent::Returned(17),
            GuardEvent::Released,
        ],
    );
    assert_eq!(state, GuardedCall::Finished);
    assert_eq!(
        actions,
        vec![
            GuardAction::Acquire,
            GuardAction::Invoke,
            GuardAction::Release,
            GuardAction::Return(Ok(17)),
        ]
    );
}

#[test]
fn zero_is_a_success_for_both_conventions() {
    for convention in [Convention::NegativeFails, Convention::InvalidIdFails] {
        let (_, actions) = run(
            convention,
            vec![
                GuardEvent::Start,
                GuardEvent::Acquired,
                GuardEvent::Returned(0),
                GuardEvent::Released,
            ],
        );
        assert_eq!(actions[2], GuardAction::Release);
        assert_eq!(actions[3], GuardAction::Return(Ok(0)));
    }
}

#[test]
fn failed_call_walks_then_clears_then_unlocks() {
    let frames = vec![frame("inner"), frame("outer")];
    let (state, actions) = run(
        Convention::NegativeFails,
        vec![
            GuardEvent::Start,
            GuardEvent::Acquired,
            GuardEvent::Returned(-1),
            GuardEvent::Walked(frames.clone()),
            GuardEvent::Cleared,
            GuardEvent::Released,
        ],
    );
    assert_eq!(state, GuardedCall::Finished);
    assert_eq!(
        actions,
        vec![
            GuardAction::Acquire,
            GuardAction::Invoke,
            GuardAction::WalkStack,
            GuardAction::ClearStack,
            GuardAction::Release,
            GuardAction::Return(Err(ErrorRecord::capture(-1, frames))),
        ]
    );
}

#[test]
fn minus_two_is_an_identifier_but_a_failed_status() {
    let events = || vec![GuardEvent::Start, GuardEvent::Acquired, GuardEvent::Returned(-2)];
    let (state, actions) = run(Convention::InvalidIdFails, events());
    assert_eq!(actions[2], GuardAction::Release);
    assert_eq!(state, GuardedCall::Unlocking { ending: Ending::Value(-2) });
    let (state, actions) = run(Convention::NegativeFails, events());
    assert_eq!(actions[2], GuardAction::WalkStack);
    assert_eq!(state, GuardedCall::Walking { raw: -2 });
}

#[test]
fn failed_call_with_empty_walk_returns_minimal_record() {
    let (_, mut actions) = run(
        Convention::InvalidIdFails,
        vec![
            GuardEvent::Start,
            GuardEvent::Acquired,
            GuardEvent::Returned(-1),
            GuardEvent::Walked(Vec::new()),
            GuardEvent::Cleared,
            GuardEvent::Released,
        ],
    );
    match actions.pop() {
        Some(GuardAction::Return(Err(record))) => {
            assert_eq!(record.code(), -1);
            assert_eq!(record.len(), 1);
            assert!(record.is_minimal());
        }
        other => panic!("expected a failure, got {:?}", other),
    }
}

#[test]
fn unwinding_call_gives_lock_back_first() {
    let (state, actions) = run(
        Convention::NegativeFails,
        vec![GuardEvent::Start, GuardEvent::Acquired, GuardEvent::Unwound, GuardEvent::Released],
    );
    assert_eq!(state, GuardedCall::Finished);
    assert_eq!(
        actions,
        vec![
            GuardAction::Acquire,
            GuardAction::Invoke,
            GuardAction::Release,
            GuardAction::Unwind,
        ]
    );
}

#[test]
fn unexpected_event_changes_nothing() {
    let (state, action) =
        call_guarded(GuardedCall::new(Convention::NegativeFails), GuardEvent::Returned(1));
    assert_eq!(state, GuardedCall::Idle { convention: Convention::NegativeFails });
    assert_eq!(action, GuardAction::Unexpected);

    let (state, action) = call_guarded(GuardedCall::Walking { raw: -1 }, GuardEvent::Cleared);
    assert_eq!(state, GuardedCall::Walking { raw: -1 });
    assert_eq!(action, GuardAction::Unexpected);

    let (state, action) = call_guarded(GuardedCall::Finished, GuardEvent::Start);
    assert_eq!(state, GuardedCall::Finished);
    assert_eq!(action, GuardAction::Unexpected);
}

#[test]
fn after_success_no_event_makes_the_call_drain() {
    let (mut state, _) = run(
        Convention::NegativeFails,
        vec![GuardEvent::Start, GuardEvent::Acquired, GuardEvent::Returned(5)],
    );
    let later = vec![
        GuardEvent::Walked(vec![frame("stray")]),
        GuardEvent::Cleared,
        GuardEvent::Returned(-1),
        GuardEvent::Start,
        GuardEvent::Released,
        GuardEvent::Walked(Vec::new()),
        GuardEvent::Released,
    ];
    let mut actions = Vec::new();
    for event in later {
        let (next, action) = call_guarded(state, event);
        state = next;
        actions.push(action);
    }
    assert!(actions.iter().all(|a| *a != GuardAction::WalkStack && *a != GuardAction::ClearStack));
    assert_eq!(actions[4], GuardAction::Return(Ok(5)));
    assert_eq!(actions.iter().filter(|a| matches!(a, GuardAction::Return(_))).count(), 1);
}
