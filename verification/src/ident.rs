//! Native identifiers, their kinds, and the capabilities each kind carries.

use vstd::prelude::*;

verus! {

/// The identifier the engine returns in place of a real one when a call that
/// should have produced an identifier failed.
pub const INVALID_ID: i64 = -1;

/// What an identifier stands for, as the engine reports it.
#[derive(Clone, Copy, Debug, PartialEq, Eq, Structural)]
pub enum IdKind {
    File,
    Group,
    Datatype,
    Dataspace,
    Dataset,
    Attribute,
    PropertyList,
    ErrorStack,
}

/// A set of operations that an entity offers, depending on its kind alone.
#[derive(Clone, Copy, Debug, PartialEq, Eq, Structural)]
pub enum Capability {
    /// Has a handle and a kind.
    Identifiable,
    /// Has a name and lives in a file.
    Object,
    /// Holds named members and attributes that can be looked up and listed.
    Location,
    /// Exposes structured data through a dataspace and a datatype.
    Container,
}

/// The capability table: which kinds carry which capability.
pub open spec fn carries(kind: IdKind, capability: Capability) -> bool {
    match capability {
        Capability::Identifiable => true,
        Capability::Object => kind is File || kind is Group || kind is Dataset
            || kind is Datatype || kind is Attribute,
        Capability::Location => kind is File || kind is Group,
        Capability::Container => kind is Dataset || kind is Attribute,
    }
}

impl IdKind {
    /// Whether an entity of this kind offers `capability`.
    pub fn supports(self, capability: Capability) -> (yes: bool)
        ensures
            yes == carries(self, capability),
    {
        match capability {
            Capability::Identifiable => true,
            Capability::Object => match self {
                IdKind::File | IdKind::Group | IdKind::Dataset | IdKind::Datatype
                | IdKind::Attribute => true,
                _ => false,
            },
            Capability::Location => match self {
                IdKind::File | IdKind::Group => true,
                _ => false,
            },
            Capability::Container => match self {
                IdKind::Dataset | IdKind::Attribute => true,
                _ => false,
            },
        }
    }
}

/// Capabilities are layered: whatever is a location or a container is an
/// object, and every kind is identifiable. No kind is both a location and a
/// container.
pub proof fn lemma_capabilities_layered(kind: IdKind)
    ensures
        carries(kind, Capability::Identifiable),
        carries(kind, Capability::Location) ==> carries(kind, Capability::Object),
        carries(kind, Capability::Container) ==> carries(kind, Capability::Object),
        !(carries(kind, Capability::Location) && carries(kind, Capability::Container)),
{
}

} // verus!
