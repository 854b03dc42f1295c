//! The course of a guarded call: what it asks for from its first event to
//! its last, what that does to the engine lock and to the error stacks, and
//! what holds of every call whatever happens around it.

use vstd::prelude::*;
use crate::error::{captured, FrameView};
use crate::guard::{guard_step, ActionView, Convention, EndingView, EventView, GuardView};
use crate::lock::LockView;

verus! {

/// The state of a call after the first `count` of `events`.
pub open spec fn state_at(call: GuardView, events: Seq<EventView>, count: nat) -> GuardView
    decreases count,
{
    if count == 0 || count > events.len() {
        call
    } else {
        guard_step(state_at(call, events, (count - 1) as nat), events[count - 1]).0
    }
}

/// The action that the event at `index` is answered with.
pub open spec fn action_at(call: GuardView, events: Seq<EventView>, index: int) -> ActionView {
    guard_step(state_at(call, events, index as nat), events[index]).1
}

/// What happens outside in the course of one whole call, in order: the
/// native call returns `returned`, or unwinds where `returned` is `None`,
/// and a walk of the error stack delivers `frames`.
pub open spec fn script(convention: Convention, returned: Option<i64>, frames: Seq<FrameView>)
    -> Seq<EventView> {
    match returned {
        None => seq![
            EventView::Start,
            EventView::Acquired,
            EventView::Unwound,
            EventView::Released,
        ],
        Some(raw) => if convention.rejects(raw) {
            seq![
                EventView::Start,
                EventView::Acquired,
                EventView::Returned(raw),
                EventView::Walked(frames),
                EventView::Cleared,
                EventView::Released,
            ]
        } else {
            seq![
                EventView::Start,
                EventView::Acquired,
                EventView::Returned(raw),
                EventView::Released,
            ]
        },
    }
}

/// What a guarded call asks for in the course of one whole call, in order.
///
/// The lock is taken first and given back last but one, on every path. A
/// call that succeeds returns its raw value as it came, and the error stack
/// is neither walked nor cleared. A call that fails has the stack walked and
/// then cleared, and returns the record captured from the frames. A call
/// that unwinds goes on unwinding once the lock is given back.
pub open spec fn course(convention: Convention, returned: Option<i64>, frames: Seq<FrameView>)
    -> Seq<ActionView> {
    match returned {
        None => seq![
            ActionView::Acquire,
            ActionView::Invoke,
            ActionView::Release,
            ActionView::Unwind,
        ],
        Some(raw) => if convention.rejects(raw) {
            seq![
                ActionView::Acquire,
                ActionView::Invoke,
                ActionView::WalkStack,
                ActionView::ClearStack,
                ActionView::Release,
                ActionView::Return(Err(captured(raw, frames))),
            ]
        } else {
            seq![
                ActionView::Acquire,
                ActionView::Invoke,
                ActionView::Release,
                ActionView::Return(Ok(raw)),
            ]
        },
    }
}

/// A guarded call that is told what `script` says, event by event, asks for
/// what `course` says, action by action, and is finished at the end.
pub proof fn lemma_call_follows_course(
    convention: Convention,
    returned: Option<i64>,
    frames: Seq<FrameView>,
    index: int,
)
    requires
        0 <= index < script(convention, returned, frames).len(),
    ensures
        script(convention, returned, frames).len() == course(convention, returned, frames).len(),
        action_at(GuardView::Idle { convention }, script(convention, returned, frames), index)
            == course(convention, returned, frames)[index],
        state_at(
            GuardView::Idle { convention },
            script(convention, returned, frames),
            script(convention, returned, frames).len(),
        ) == GuardView::Finished,
{
    let start = GuardView::Idle { convention };
    let events = script(convention, returned, frames);
    assert(state_at(start, events, 0) == start);
    assert(state_at(start, events, 1) == (GuardView::Locking { convention }));
    assert(state_at(start, events, 2) == (GuardView::Running { convention }));
    match returned {
        None => {
            assert(state_at(start, events, 3) == (GuardView::Unlocking {
                ending: EndingView::Unwound,
            }));
            assert(state_at(start, events, 4) == GuardView::Finished);
        },
        Some(raw) => {
            if convention.rejects(raw) {
                let record = captured(raw, frames);
                assert(state_at(start, events, 3) == (GuardView::Walking { raw }));
                assert(state_at(start, events, 4) == (GuardView::Clearing { record }));
                assert(state_at(start, events, 5) == (GuardView::Unlocking {
                    ending: EndingView::Failure(record),
                }));
                assert(state_at(start, events, 6) == GuardView::Finished);
            } else {
                assert(state_at(start, events, 3) == (GuardView::Unlocking {
                    ending: EndingView::Value(raw),
                }));
                assert(state_at(start, events, 4) == GuardView::Finished);
            }
        },
    }
}

/// The engine lock after `context` did what `action` asks for.
pub open spec fn lock_after(lock: LockView, context: u64, action: ActionView) -> LockView {
    match action {
        ActionView::Acquire => lock.entered(context),
        ActionView::Release => lock.left(context),
        _ => lock,
    }
}

/// The engine lock after `context` did the first `count` of `actions`.
pub open spec fn lock_through(
    lock: LockView,
    context: u64,
    actions: Seq<ActionView>,
    count: nat,
) -> LockView
    decreases count,
{
    if count == 0 || count > actions.len() {
        lock
    } else {
        lock_after(
            lock_through(lock, context, actions, (count - 1) as nat),
            context,
            actions[count - 1],
        )
    }
}

/// In the course of a guarded call the calling context holds the engine lock
/// from the first action to the last but one: while the native call is made
/// and while the error stack is walked and cleared. When the call is over
/// the lock is as it was before, whether the native call succeeded, failed
/// or unwound, and also where the context held the lock already.
pub proof fn lemma_call_holds_and_returns_lock(
    lock: LockView,
    context: u64,
    convention: Convention,
    returned: Option<i64>,
    frames: Seq<FrameView>,
    count: nat,
)
    requires
        lock.consistent(),
        lock.admits(context),
        count <= course(convention, returned, frames).len(),
    ensures
        ({
            let actions = course(convention, returned, frames);
            let now = lock_through(lock, context, actions, count);
            &&& 0 < count < actions.len() - 1 ==> now == lock.entered(context)
            &&& count >= actions.len() - 1 ==> now == lock
        }),
{
    reveal_with_fuel(lock_through, 7);
}

proof fn lemma_success_states(raw: i64, later: Seq<EventView>, count: nat)
    requires
        count <= later.len(),
    ensures
        ({
            let unlocking = GuardView::Unlocking { ending: EndingView::Value(raw) };
            let state = state_at(unlocking, later, count);
            state == unlocking || state == GuardView::Finished
        }),
    decreases count,
{
    if count > 0 {
        lemma_success_states(raw, later, (count - 1) as nat);
    }
}

/// Once a call has returned a result that its convention accepts, nothing
/// that happens afterwards makes it walk or clear the error stack, and if it
/// returns, it returns that result unchanged.
pub proof fn lemma_success_never_drains(
    convention: Convention,
    raw: i64,
    later: Seq<EventView>,
    index: int,
)
    requires
        !convention.rejects(raw),
        0 <= index < later.len(),
    ensures
        ({
            let returned = guard_step(GuardView::Running { convention }, EventView::Returned(raw));
            let action = action_at(returned.0, later, index);
            &&& returned.1 == ActionView::Release
            &&& action != ActionView::WalkStack
            &&& action != ActionView::ClearStack
            &&& action is Return ==> action == ActionView::Return(Ok(raw))
        }),
{
    lemma_success_states(raw, later, index as nat);
}

/// The states that a failed call with raw result `raw` passes through: each
/// record in them carries `raw` and at least one frame.
spec fn failing_with(state: GuardView, raw: i64) -> bool {
    match state {
        GuardView::Walking { raw: seen } => seen == raw,
        GuardView::Clearing { record } => record.code == raw && record.frames.len() > 0,
        GuardView::Unlocking { ending: EndingView::Failure(record) } => record.code == raw
            && record.frames.len() > 0,
        GuardView::Finished => true,
        _ => false,
    }
}

proof fn lemma_failure_states(raw: i64, later: Seq<EventView>, count: nat)
    requires
        count <= later.len(),
    ensures
        failing_with(state_at(GuardView::Walking { raw }, later, count), raw),
    decreases count,
{
    if count > 0 {
        lemma_failure_states(raw, later, (count - 1) as nat);
    }
}

/// Once a call has returned a result that its convention rejects, whatever
/// happens afterwards, if it returns, it returns a record that carries the
/// raw result and at least one frame: also when the walk delivered none.
pub proof fn lemma_failure_returns_record(
    convention: Convention,
    raw: i64,
    later: Seq<EventView>,
    index: int,
)
    requires
        convention.rejects(raw),
        0 <= index < later.len(),
    ensures
        ({
            let returned = guard_step(GuardView::Running { convention }, EventView::Returned(raw));
            let action = action_at(returned.0, later, index);
            &&& returned.1 == ActionView::WalkStack
            &&& action is Return ==> (action matches ActionView::Return(Err(record))
                && record.code == raw && record.frames.len() > 0)
        }),
{
    lemma_failure_states(raw, later, index as nat);
}

/// The engine's error stacks, one for each thread.
pub struct Stacks {
    pub frames: Map<u64, Seq<FrameView>>,
}

impl Stacks {
    /// The stack of `thread`, top first. A thread that has none yet has an
    /// empty one.
    pub open spec fn of(self, thread: u64) -> Seq<FrameView> {
        if self.frames.contains_key(thread) {
            self.frames[thread]
        } else {
            Seq::empty()
        }
    }

    /// The stacks after `thread` cleared its own.
    pub open spec fn cleared(self, thread: u64) -> Stacks {
        Stacks { frames: self.frames.insert(thread, Seq::empty()) }
    }
}

/// What a guarded call on `thread` ends with when its native call returns
/// `raw`, and the stacks it leaves behind. The walk delivers the thread's
/// own stack, and the clearing clears that stack.
pub open spec fn ended_on(stacks: Stacks, thread: u64, convention: Convention, raw: i64) -> (
    ActionView,
    Stacks,
) {
    let actions = course(convention, Some(raw), stacks.of(thread));
    (
        actions.last(),
        if convention.rejects(raw) {
            stacks.cleared(thread)
        } else {
            stacks
        },
    )
}

/// Two threads that each make a failing call get each its own frames,
/// whichever of the two calls comes first: the record of the one holds
/// nothing of the other's stack, and the later call finds its stack as it
/// was.
pub proof fn lemma_threads_see_their_own_frames(
    stacks: Stacks,
    first: u64,
    second: u64,
    convention: Convention,
    first_raw: i64,
    second_raw: i64,
)
    requires
        first != second,
        convention.rejects(first_raw),
        convention.rejects(second_raw),
    ensures
        ({
            let (early, between) = ended_on(stacks, first, convention, first_raw);
            let (late, after) = ended_on(between, second, convention, second_raw);
            &&& early == ActionView::Return(Err(captured(first_raw, stacks.of(first))))
            &&& late == ActionView::Return(Err(captured(second_raw, stacks.of(second))))
            &&& after.of(first) == Seq::<FrameView>::empty()
            &&& after.of(second) == Seq::<FrameView>::empty()
        }),
{
}

/// A call that succeeds leaves every thread's error stack as it was.
pub proof fn lemma_success_leaves_stacks(
    stacks: Stacks,
    thread: u64,
    convention: Convention,
    raw: i64,
)
    requires
        !convention.rejects(raw),
    ensures
        ended_on(stacks, thread, convention, raw) == (ActionView::Return(Ok(raw)), stacks),
{
}

} // verus!
