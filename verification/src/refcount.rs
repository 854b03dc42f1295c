//! Reference counting, seen from the engine's side: what the calls that
//! handles lead to do to the engine's count of an identifier, and why the
//! count and the handles never get out of step.

use vstd::prelude::*;
use crate::handle::{issued, HandleOp};
use crate::native::NativeCall;

verus! {

/// What the engine keeps for one identifier: its reference count, and how
/// many times it has released what the identifier stands for.
pub struct Slot {
    pub count: nat,
    pub released: nat,
}

impl Slot {
    /// The slot of `id` after `call`. Only the two reference-counting calls
    /// on `id` itself touch it. A count of zero means that the identifier is
    /// not registered: both calls fail on it and change nothing. Taking the
    /// last reference releases the identifier.
    pub open spec fn after(self, id: i64, call: NativeCall) -> Slot {
        match call {
            NativeCall::IncRef { id: target } => if target == id && self.count > 0 {
                Slot { count: self.count + 1, released: self.released }
            } else {
                self
            },
            NativeCall::DecRef { id: target } => if target == id && self.count > 0 {
                Slot {
                    count: (self.count - 1) as nat,
                    released: if self.count == 1 {
                        self.released + 1
                    } else {
                        self.released
                    },
                }
            } else {
                self
            },
            _ => self,
        }
    }
}

/// The number of live handles of one identifier after `op`, which acts on
/// one of `live` handles. With no handle there is nothing to act on.
pub open spec fn live_after(live: nat, op: HandleOp) -> nat {
    if live == 0 {
        live
    } else {
        match op {
            HandleOp::Clone => live + 1,
            HandleOp::RefusedClone => live,
            HandleOp::Drop => (live - 1) as nat,
        }
    }
}

/// The number of live handles after the first `count` of `ops`.
pub open spec fn live_at(live: nat, ops: Seq<HandleOp>, count: nat) -> nat
    decreases count,
{
    if count == 0 || count > ops.len() {
        live
    } else {
        live_after(live_at(live, ops, (count - 1) as nat), ops[count - 1])
    }
}

/// The engine's slot of `id` after the calls that the first `count` of `ops`
/// lead to. An operation is made only while a handle lives, and a call that
/// the engine refuses changes nothing.
pub open spec fn slot_at(slot: Slot, id: i64, live: nat, ops: Seq<HandleOp>, count: nat) -> Slot
    decreases count,
{
    if count == 0 || count > ops.len() {
        slot
    } else {
        let before = slot_at(slot, id, live, ops, (count - 1) as nat);
        if live_at(live, ops, (count - 1) as nat) == 0 || ops[count - 1] is RefusedClone {
            before
        } else {
            before.after(id, issued(ops[count - 1], id))
        }
    }
}

/// Making a handle and giving it up again leaves the engine's count of the
/// identifier as it was, and releases nothing.
pub proof fn lemma_clone_then_drop(slot: Slot, id: i64)
    requires
        slot.count > 0,
    ensures
        slot.after(id, issued(HandleOp::Clone, id)).count == slot.count + 1,
        slot.after(id, issued(HandleOp::Clone, id)).after(id, issued(HandleOp::Drop, id)) == slot,
{
}

/// Whatever handles of an identifier are made and given up, in whatever
/// order, and whichever clones the engine refuses: the engine's count of the
/// identifier stays equal to the number of live handles plus the references
/// that others hold. So it is never less than the number of live handles,
/// and equal to it where handles hold every reference.
pub proof fn lemma_count_tracks_live(
    slot: Slot,
    id: i64,
    live: nat,
    others: nat,
    ops: Seq<HandleOp>,
    count: nat,
)
    requires
        slot.count == live + others,
        count <= ops.len(),
    ensures
        slot_at(slot, id, live, ops, count).count == live_at(live, ops, count) + others,
    decreases count,
{
    if count > 0 {
        lemma_count_tracks_live(slot, id, live, others, ops, (count - 1) as nat);
    }
}

/// Where handles hold all references of an identifier, the identifier is
/// released exactly once, by the call that gives up the last handle: not
/// before, and not again afterwards.
pub proof fn lemma_released_once(slot: Slot, id: i64, live: nat, ops: Seq<HandleOp>, count: nat)
    requires
        slot.count == live,
        live > 0,
        count <= ops.len(),
    ensures
        slot_at(slot, id, live, ops, count).released == slot.released + (if live_at(
            live,
            ops,
            count,
        ) == 0 {
            1nat
        } else {
            0nat
        }),
    decreases count,
{
    if count > 0 {
        lemma_released_once(slot, id, live, ops, (count - 1) as nat);
        lemma_count_tracks_live(slot, id, live, 0, ops, (count - 1) as nat);
    }
}

/// Giving up the last handle leads to one call, and that call releases the
/// identifier.
pub proof fn lemma_last_drop_releases(slot: Slot, id: i64)
    requires
        slot.count == 1,
    ensures
        issued(HandleOp::Drop, id) == (NativeCall::DecRef { id }),
        slot.after(id, issued(HandleOp::Drop, id)).count == 0,
        slot.after(id, issued(HandleOp::Drop, id)).released == slot.released + 1,
{
}

} // verus!
