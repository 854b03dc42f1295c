//! The engine lock: one process-wide lock that the same calling context may
//! take again while it holds it.
//!
//! This is the lock's bookkeeping, without the waiting. Whoever owns the real
//! lock keeps one `LockState` behind it, asks `try_acquire` and lets the
//! caller wait while the answer is no.

use vstd::prelude::*;

verus! {

/// The lock as a plain value: who holds it, and how many times over.
pub struct LockView {
    pub owner: Option<u64>,
    pub depth: nat,
}

impl LockView {
    /// The lock that nobody holds.
    pub open spec fn free() -> LockView {
        LockView { owner: None, depth: 0 }
    }

    /// Owner and depth agree: the lock is held exactly when its depth is not
    /// zero.
    pub open spec fn consistent(self) -> bool {
        self.owner is None <==> self.depth == 0
    }

    /// Whether `context` is let in: the lock is free, or `context` holds it
    /// already.
    pub open spec fn admits(self, context: u64) -> bool {
        self.owner is None || self.owner == Some(context)
    }

    /// The lock after `context` was let in once more.
    pub open spec fn entered(self, context: u64) -> LockView {
        LockView { owner: Some(context), depth: self.depth + 1 }
    }

    /// The lock after `context` left once. A context that does not hold the
    /// lock changes nothing.
    pub open spec fn left(self, context: u64) -> LockView {
        if self.owner != Some(context) {
            self
        } else if self.depth <= 1 {
            LockView::free()
        } else {
            LockView { owner: self.owner, depth: (self.depth - 1) as nat }
        }
    }

    /// The lock after `context` was let in `times` times in a row.
    pub open spec fn entered_times(self, context: u64, times: nat) -> LockView
        decreases times,
    {
        if times == 0 {
            self
        } else {
            self.entered_times(context, (times - 1) as nat).entered(context)
        }
    }

    /// The lock after `context` left `times` times in a row.
    pub open spec fn left_times(self, context: u64, times: nat) -> LockView
        decreases times,
    {
        if times == 0 {
            self
        } else {
            self.left(context).left_times(context, (times - 1) as nat)
        }
    }
}

/// What giving the lock back came to.
#[derive(Clone, Copy, Debug, PartialEq, Eq, Structural)]
pub enum Released {
    /// The lock is free now; a waiting context may be let in.
    Freed,
    /// The context still holds the lock from an outer acquisition.
    StillHeld,
    /// The context did not hold the lock; nothing changed.
    NotHeld,
}

/// Who holds the engine lock, and how deeply nested.
#[derive(Debug, PartialEq, Eq)]
pub struct LockState {
    owner: Option<u64>,
    depth: u64,
}

impl View for LockState {
    type V = LockView;

    closed spec fn view(&self) -> LockView {
        LockView { owner: self.owner, depth: self.depth as nat }
    }
}

impl LockState {
    #[verifier::type_invariant]
    spec fn held_iff_counted(self) -> bool {
        self.owner is None <==> self.depth == 0
    }

    /// The lock that nobody holds.
    pub fn new() -> (lock: LockState)
        ensures
            lock@ == LockView::free(),
    {
        LockState { owner: None, depth: 0 }
    }

    /// The context that holds the lock, if any.
    pub fn owner(&self) -> (owner: Option<u64>)
        ensures
            owner == self@.owner,
            self@.consistent(),
    {
        proof {
            use_type_invariant(self);
        }
        self.owner
    }

    /// How many acquisitions the holder has not yet given back.
    pub fn depth(&self) -> (depth: u64)
        ensures
            depth == self@.depth,
            self@.consistent(),
    {
        proof {
            use_type_invariant(self);
        }
        self.depth
    }

    /// Lets `context` in if the lock is free or `context` holds it already,
    /// and says whether it did. A refused context is to wait and ask again.
    /// The depth is counted in 64 bits, so a holder can re-enter only while
    /// the count has room.
    pub fn try_acquire(&mut self, context: u64) -> (granted: bool)
        requires
            old(self)@.admits(context) ==> old(self)@.depth < u64::MAX,
        ensures
            granted == old(self)@.admits(context),
            granted ==> final(self)@ == old(self)@.entered(context),
            !granted ==> final(self)@ == old(self)@,
            final(self)@.consistent(),
    {
        proof {
            use_type_invariant(&*self);
        }
        let granted = match self.owner {
            None => true,
            Some(holder) => holder == context,
        };
        if granted {
            *self = LockState { owner: Some(context), depth: self.depth + 1 };
        }
        granted
    }

    /// Gives back one acquisition of `context` and says what that came to.
    pub fn release(&mut self, context: u64) -> (released: Released)
        ensures
            final(self)@ == old(self)@.left(context),
            final(self)@.consistent(),
            released == (if old(self)@.owner != Some(context) {
                Released::NotHeld
            } else if old(self)@.depth <= 1 {
                Released::Freed
            } else {
                Released::StillHeld
            }),
    {
        proof {
            use_type_invariant(&*self);
        }
        let held = match self.owner {
            None => false,
            Some(holder) => holder == context,
        };
        if !held {
            Released::NotHeld
        } else if self.depth <= 1 {
            *self = LockState { owner: None, depth: 0 };
            Released::Freed
        } else {
            *self = LockState { owner: self.owner, depth: self.depth - 1 };
            Released::StillHeld
        }
    }
}

/// Mutual exclusion: while one context holds the lock, no other is let in.
pub proof fn lemma_one_holder(lock: LockView, holder: u64, other: u64)
    requires
        lock.owner == Some(holder),
        other != holder,
    ensures
        !lock.admits(other),
        lock.entered(holder).owner == Some(holder),
{
}

/// Re-entry: the context that holds the lock is always let in again.
pub proof fn lemma_holder_reenters(lock: LockView, holder: u64)
    requires
        lock.owner == Some(holder),
    ensures
        lock.admits(holder),
{
}

/// Taking the lock and giving it back leaves it as it was.
pub proof fn lemma_enter_then_leave(lock: LockView, context: u64)
    requires
        lock.consistent(),
        lock.admits(context),
    ensures
        lock.entered(context).left(context) == lock,
{
}

/// Nested use: a context that takes the lock any number of times and gives
/// it back as often leaves it as it was, and holds it all the while.
pub proof fn lemma_nested_balance(lock: LockView, context: u64, times: nat)
    requires
        lock.consistent(),
        lock.admits(context),
    ensures
        lock.entered_times(context, times).left_times(context, times) == lock,
        lock.entered_times(context, times).consistent(),
        lock.entered_times(context, times).depth == lock.depth + times,
        times > 0 ==> lock.entered_times(context, times).owner == Some(context),
    decreases times,
{
    if times > 0 {
        let inner = lock.entered_times(context, (times - 1) as nat);
        lemma_nested_balance(lock, context, (times - 1) as nat);
        lemma_enter_then_leave(inner, context);
    }
}

} // verus!
