//! The guarded call: one native call made under the engine lock, its raw
//! result read by the call's own failure convention, and the engine's error
//! stack turned into a record when the call failed.
//!
//! The engine is not reached from here. A guarded call is a small machine:
//! it is told what happened and answers with what to do next.

use vstd::prelude::*;
use crate::error::{captured, ErrorRecord, Frame, FrameView, RecordView};
use crate::ident::INVALID_ID;

verus! {

/// How a native call reports failure through its raw result.
#[derive(Clone, Copy, Debug, PartialEq, Eq, Structural)]
pub enum Convention {
    /// A negative result is a failure; anything else is the value.
    NegativeFails,
    /// The invalid identifier is a failure; anything else is an identifier.
    InvalidIdFails,
}

impl Convention {
    /// Whether `raw` reports a failure under this convention.
    pub open spec fn rejects(self, raw: i64) -> bool {
        match self {
            Convention::NegativeFails => raw < 0,
            Convention::InvalidIdFails => raw == INVALID_ID,
        }
    }

    /// Whether `raw` reports a failure under this convention.
    pub fn is_failure(self, raw: i64) -> (failed: bool)
        ensures
            failed == self.rejects(raw),
    {
        match self {
            Convention::NegativeFails => raw < 0,
            Convention::InvalidIdFails => raw == INVALID_ID,
        }
    }
}

/// How a guarded call ends once the lock is given back.
#[derive(Debug, PartialEq, Eq)]
pub enum Ending {
    /// The native call succeeded with this raw value.
    Value(i64),
    /// The native call failed; this is what was captured.
    Failure(ErrorRecord),
    /// The native call did not return: it unwound.
    Unwound,
}

/// An ending as a plain value.
pub enum EndingView {
    Value(i64),
    Failure(RecordView),
    Unwound,
}

impl View for Ending {
    type V = EndingView;

    open spec fn view(&self) -> EndingView {
        match self {
            Ending::Value(raw) => EndingView::Value(*raw),
            Ending::Failure(record) => EndingView::Failure(record@),
            Ending::Unwound => EndingView::Unwound,
        }
    }
}

/// Where a guarded call stands. Each state but the first and the last waits
/// for the answer to the one action that led into it.
#[derive(Debug, PartialEq, Eq)]
pub enum GuardedCall {
    /// Nothing has been asked for yet.
    Idle { convention: Convention },
    /// The engine lock was asked for.
    Locking { convention: Convention },
    /// The native call is being made, under the lock.
    Running { convention: Convention },
    /// The call failed with `raw`; the error stack is being walked.
    Walking { raw: i64 },
    /// The record is made; the error stack is being cleared.
    Clearing { record: ErrorRecord },
    /// The lock is being given back.
    Unlocking { ending: Ending },
    /// The call is over.
    Finished,
}

/// A guarded call's state as a plain value.
pub enum GuardView {
    Idle { convention: Convention },
    Locking { convention: Convention },
    Running { convention: Convention },
    Walking { raw: i64 },
    Clearing { record: RecordView },
    Unlocking { ending: EndingView },
    Finished,
}

impl View for GuardedCall {
    type V = GuardView;

    open spec fn view(&self) -> GuardView {
        match self {
            GuardedCall::Idle { convention } => GuardView::Idle { convention: *convention },
            GuardedCall::Locking { convention } => GuardView::Locking { convention: *convention },
            GuardedCall::Running { convention } => GuardView::Running { convention: *convention },
            GuardedCall::Walking { raw } => GuardView::Walking { raw: *raw },
            GuardedCall::Clearing { record } => GuardView::Clearing { record: record@ },
            GuardedCall::Unlocking { ending } => GuardView::Unlocking { ending: ending@ },
            GuardedCall::Finished => GuardView::Finished,
        }
    }
}

/// What happened outside since the last action.
#[derive(Debug, PartialEq, Eq)]
pub enum GuardEvent {
    /// The call is to begin.
    Start,
    /// The engine lock is held.
    Acquired,
    /// The native call returned this raw result.
    Returned(i64),
    /// The native call unwound instead of returning.
    Unwound,
    /// The error stack was walked; these are its frames, top first.
    Walked(Vec<Frame>),
    /// The error stack is empty again.
    Cleared,
    /// The engine lock was given back.
    Released,
}

/// An event as a plain value.
pub enum EventView {
    Start,
    Acquired,
    Returned(i64),
    Unwound,
    Walked(Seq<FrameView>),
    Cleared,
    Released,
}

impl View for GuardEvent {
    type V = EventView;

    open spec fn view(&self) -> EventView {
        match self {
            GuardEvent::Start => EventView::Start,
            GuardEvent::Acquired => EventView::Acquired,
            GuardEvent::Returned(raw) => EventView::Returned(*raw),
            GuardEvent::Unwound => EventView::Unwound,
            GuardEvent::Walked(frames) => EventView::Walked(frames.deep_view()),
            GuardEvent::Cleared => EventView::Cleared,
            GuardEvent::Released => EventView::Released,
        }
    }
}

/// What is to be done next.
#[derive(Debug, PartialEq, Eq)]
pub enum GuardAction {
    /// Take the engine lock; answer with `Acquired`.
    Acquire,
    /// Make the native call; answer with `Returned` or `Unwound`.
    Invoke,
    /// Walk this thread's error stack from the top; answer with `Walked`.
    WalkStack,
    /// Clear this thread's error stack; answer with `Cleared`.
    ClearStack,
    /// Give the engine lock back; answer with `Released`.
    Release,
    /// The call is over, and this is its result.
    Return(Result<i64, ErrorRecord>),
    /// The call is over; go on unwinding.
    Unwind,
    /// The event answers nothing that was asked for. Nothing is to be done,
    /// and the call stands where it stood.
    Unexpected,
}

/// An action as a plain value.
pub enum ActionView {
    Acquire,
    Invoke,
    WalkStack,
    ClearStack,
    Release,
    Return(Result<i64, RecordView>),
    Unwind,
    Unexpected,
}

impl View for GuardAction {
    type V = ActionView;

    open spec fn view(&self) -> ActionView {
        match self {
            GuardAction::Acquire => ActionView::Acquire,
            GuardAction::Invoke => ActionView::Invoke,
            GuardAction::WalkStack => ActionView::WalkStack,
            GuardAction::ClearStack => ActionView::ClearStack,
            GuardAction::Release => ActionView::Release,
            GuardAction::Return(Ok(raw)) => ActionView::Return(Ok(*raw)),
            GuardAction::Return(Err(record)) => ActionView::Return(Err(record@)),
            GuardAction::Unwind => ActionView::Unwind,
            GuardAction::Unexpected => ActionView::Unexpected,
        }
    }
}

/// The action that closes a call with the given ending.
pub open spec fn closing(ending: EndingView) -> ActionView {
    match ending {
        EndingView::Value(raw) => ActionView::Return(Ok(raw)),
        EndingView::Failure(record) => ActionView::Return(Err(record)),
        EndingView::Unwound => ActionView::Unwind,
    }
}

/// One step of a guarded call: the state it moves to and the action it asks
/// for, given where it stands and what happened.
///
/// The lock is taken before the native call and given back after it on every
/// path. A result that the convention accepts goes straight to the release
/// of the lock; one that it rejects has the error stack walked, the record
/// made of the frames, and the stack cleared first.
pub open spec fn guard_step(call: GuardView, event: EventView) -> (GuardView, ActionView) {
    match (call, event) {
        (GuardView::Idle { convention }, EventView::Start) => (
            GuardView::Locking { convention },
            ActionView::Acquire,
        ),
        (GuardView::Locking { convention }, EventView::Acquired) => (
            GuardView::Running { convention },
            ActionView::Invoke,
        ),
        (GuardView::Running { convention }, EventView::Returned(raw)) => if convention.rejects(
            raw,
        ) {
            (GuardView::Walking { raw }, ActionView::WalkStack)
        } else {
            (GuardView::Unlocking { ending: EndingView::Value(raw) }, ActionView::Release)
        },
        (GuardView::Running { convention }, EventView::Unwound) => (
            GuardView::Unlocking { ending: EndingView::Unwound },
            ActionView::Release,
        ),
        (GuardView::Walking { raw }, EventView::Walked(frames)) => (
            GuardView::Clearing { record: captured(raw, frames) },
            ActionView::ClearStack,
        ),
        (GuardView::Clearing { record }, EventView::Cleared) => (
            GuardView::Unlocking { ending: EndingView::Failure(record) },
            ActionView::Release,
        ),
        (GuardView::Unlocking { ending }, EventView::Released) => (
            GuardView::Finished,
            closing(ending),
        ),
        _ => (call, ActionView::Unexpected),
    }
}

impl GuardedCall {
    /// A guarded call that has not begun, for a native call with the given
    /// failure convention.
    pub fn new(convention: Convention) -> (call: GuardedCall)
        ensures
            call@ == (GuardView::Idle { convention }),
    {
        GuardedCall::Idle { convention }
    }
}

/// Advances a guarded call by one event and says what to do next.
pub fn call_guarded(call: GuardedCall, event: GuardEvent) -> (next: (GuardedCall, GuardAction))
    ensures
        (next.0@, next.1@) == guard_step(call@, event@),
{
    match (call, event) {
        (GuardedCall::Idle { convention }, GuardEvent::Start) => (
            GuardedCall::Locking { convention },
            GuardAction::Acquire,
        ),
        (GuardedCall::Locking { convention }, GuardEvent::Acquired) => (
            GuardedCall::Running { convention },
            GuardAction::Invoke,
        ),
        (GuardedCall::Running { convention }, GuardEvent::Returned(raw)) => {
            if convention.is_failure(raw) {
                (GuardedCall::Walking { raw }, GuardAction::WalkStack)
            } else {
                (GuardedCall::Unlocking { ending: Ending::Value(raw) }, GuardAction::Release)
            }
        },
        (GuardedCall::Running { convention }, GuardEvent::Unwound) => (
            GuardedCall::Unlocking { ending: Ending::Unwound },
            GuardAction::Release,
        ),
        (GuardedCall::Walking { raw }, GuardEvent::Walked(frames)) => (
            GuardedCall::Clearing { record: ErrorRecord::capture(raw, frames) },
            GuardAction::ClearStack,
        ),
        (GuardedCall::Clearing { record }, GuardEvent::Cleared) => (
            GuardedCall::Unlocking { ending: Ending::Failure(record) },
            GuardAction::Release,
        ),
        (GuardedCall::Unlocking { ending }, GuardEvent::Released) => {
            let action = match ending {
                Ending::Value(raw) => GuardAction::Return(Ok(raw)),
                Ending::Failure(record) => GuardAction::Return(Err(record)),
                Ending::Unwound => GuardAction::Unwind,
            };
            (GuardedCall::Finished, action)
        },
        (call, _) => (call, GuardAction::Unexpected),
    }
}

} // verus!
