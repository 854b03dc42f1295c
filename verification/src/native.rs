//! The native calls that this layer has made, as values. Each names one
//! entry point of the engine with its arguments and knows the convention by
//! which that entry point reports failure.

use vstd::prelude::*;
use crate::guard::Convention;

verus! {

/// The index by which the members of a location are listed.
#[derive(Clone, Copy, Debug, PartialEq, Eq, Structural)]
pub enum IndexBy {
    /// In the order in which the members were created.
    CreationOrder,
    /// In the order of their names.
    Name,
}

/// The direction in which an index is walked.
#[derive(Clone, Copy, Debug, PartialEq, Eq, Structural)]
pub enum Direction {
    Increasing,
    Decreasing,
}

/// The order in which the members of a location are listed.
#[derive(Clone, Copy, Debug, PartialEq, Eq, Structural)]
pub struct Traversal {
    pub index: IndexBy,
    pub direction: Direction,
}

impl Traversal {
    /// The order used where none is asked for: by creation, oldest first.
    pub open spec fn standard() -> Traversal {
        Traversal { index: IndexBy::CreationOrder, direction: Direction::Increasing }
    }

    /// The order used where none is asked for: by creation, oldest first.
    pub fn by_creation() -> (order: Traversal)
        ensures
            order == Traversal::standard(),
    {
        Traversal { index: IndexBy::CreationOrder, direction: Direction::Increasing }
    }

    /// By name, in increasing order.
    pub fn by_name() -> (order: Traversal)
        ensures
            order == (Traversal { index: IndexBy::Name, direction: Direction::Increasing }),
    {
        Traversal { index: IndexBy::Name, direction: Direction::Increasing }
    }

    /// The same index, walked the other way.
    pub fn reversed(self) -> (order: Traversal)
        ensures
            order.index == self.index,
            order.direction != self.direction,
    {
        let direction = match self.direction {
            Direction::Increasing => Direction::Decreasing,
            Direction::Decreasing => Direction::Increasing,
        };
        Traversal { index: self.index, direction }
    }
}

/// What a location's members are: the objects linked under it, or the
/// attributes attached to it.
#[derive(Clone, Copy, Debug, PartialEq, Eq, Structural)]
pub enum Members {
    Children,
    Attributes,
}

/// One call into the engine, to be made as a guarded call.
#[derive(Debug, PartialEq, Eq)]
pub enum NativeCall {
    /// Add one to the engine's reference count of `id`.
    IncRef { id: i64 },
    /// Take one from the engine's reference count of `id`; at zero the
    /// engine releases what `id` stands for.
    DecRef { id: i64 },
    /// Ask for the name of the object `id`. The raw result is the name's
    /// length.
    NameOf { id: i64 },
    /// Ask for an identifier of the file that holds `id`. The raw result is
    /// that identifier, newly acquired.
    FileOf { id: i64 },
    /// Ask whether a member is linked at `path`, relative to `location`.
    /// The raw result is positive if it is and zero if it is not.
    LinkExists { location: i64, path: String },
    /// Ask how many members of the given sort `location` has. The raw
    /// result is their number.
    Count { location: i64, members: Members },
    /// Ask for the name of the member at `position` in the given order. The
    /// raw result is the name's length.
    NameAt { location: i64, members: Members, order: Traversal, position: u64 },
    /// Ask for an identifier of the dataspace of `id`, newly acquired.
    SpaceOf { id: i64 },
    /// Ask for an identifier of the datatype of `id`, newly acquired.
    TypeOf { id: i64 },
}

impl NativeCall {
    /// The convention by which each call reports failure: the calls that
    /// return an identifier return the invalid one, all others a negative
    /// number.
    pub open spec fn failure_convention(self) -> Convention {
        match self {
            NativeCall::FileOf { .. } | NativeCall::SpaceOf { .. } | NativeCall::TypeOf { .. } =>
                Convention::InvalidIdFails,
            _ => Convention::NegativeFails,
        }
    }

    /// The convention by which this call reports failure.
    pub fn convention(&self) -> (convention: Convention)
        ensures
            convention == self.failure_convention(),
    {
        match self {
            NativeCall::FileOf { .. } | NativeCall::SpaceOf { .. } | NativeCall::TypeOf { .. } =>
                Convention::InvalidIdFails,
            _ => Convention::NegativeFails,
        }
    }
}

} // verus!
