//! Entities and what they can do.
//!
//! An entity is a handle together with the kind that the engine reports for
//! its identifier. What it can be used as follows from the kind alone: each
//! capability is a view of the entity that exists exactly for the kinds that
//! carry it.

use vstd::prelude::*;
use crate::error::{native_error, raw_outcome, Error, ErrorRecord, ErrorView, RecordView};
use crate::handle::Handle;
use crate::ident::{carries, Capability, IdKind, INVALID_ID};
use crate::native::NativeCall;

verus! {

/// An entity as a plain value.
pub struct EntityView {
    pub id: i64,
    pub kind: IdKind,
}

/// A handle and the kind of its identifier: the identifiable thing that all
/// capabilities are views of.
#[derive(Debug)]
pub struct Entity {
    handle: Handle,
    kind: IdKind,
}

impl View for Entity {
    type V = EntityView;

    closed spec fn view(&self) -> EntityView {
        EntityView { id: self.handle@, kind: self.kind }
    }
}

/// An entity seen as an object: it has a name and lives in a file.
#[derive(Clone, Copy, Debug)]
pub struct Object<'a> {
    handle: &'a Handle,
}

/// An entity seen as a location: it holds named members and attributes.
#[derive(Clone, Copy, Debug)]
pub struct Location<'a> {
    handle: &'a Handle,
}

/// An entity seen as a container: it exposes structured data.
#[derive(Clone, Copy, Debug)]
pub struct Container<'a> {
    handle: &'a Handle,
}

impl<'a> View for Object<'a> {
    type V = i64;

    closed spec fn view(&self) -> i64 {
        self.handle@
    }
}

impl<'a> View for Location<'a> {
    type V = i64;

    closed spec fn view(&self) -> i64 {
        self.handle@
    }
}

impl<'a> View for Container<'a> {
    type V = i64;

    closed spec fn view(&self) -> i64 {
        self.handle@
    }
}

impl Entity {
    /// The entity that owns `handle`, of the kind that the engine reported
    /// for the handle's identifier.
    pub fn new(handle: Handle, kind: IdKind) -> (entity: Entity)
        ensures
            entity@ == (EntityView { id: handle@, kind }),
    {
        Entity { handle, kind }
    }

    /// The entity's handle.
    pub fn handle(&self) -> (handle: &Handle)
        ensures
            handle@ == self@.id,
    {
        &self.handle
    }

    /// The kind of the entity's identifier.
    pub fn kind(&self) -> (kind: IdKind)
        ensures
            kind == self@.kind,
    {
        self.kind
    }

    /// Takes the entity apart and gives its handle.
    pub fn into_handle(self) -> (handle: Handle)
        ensures
            handle@ == self@.id,
    {
        self.handle
    }

    /// The entity as an object, where its kind carries that capability.
    pub fn as_object(&self) -> (view: Option<Object<'_>>)
        ensures
            view is Some <==> carries(self@.kind, Capability::Object),
            view matches Some(object) ==> object@ == self@.id,
    {
        if self.kind.supports(Capability::Object) {
            Some(Object { handle: &self.handle })
        } else {
            None
        }
    }

    /// The entity as a location, where its kind carries that capability.
    pub fn as_location(&self) -> (view: Option<Location<'_>>)
        ensures
            view is Some <==> carries(self@.kind, Capability::Location),
            view matches Some(location) ==> location@ == self@.id,
    {
        if self.kind.supports(Capability::Location) {
            Some(Location { handle: &self.handle })
        } else {
            None
        }
    }

    /// The entity as a container, where its kind carries that capability.
    pub fn as_container(&self) -> (view: Option<Container<'_>>)
        ensures
            view is Some <==> carries(self@.kind, Capability::Container),
            view matches Some(container) ==> container@ == self@.id,
    {
        if self.kind.supports(Capability::Container) {
            Some(Container { handle: &self.handle })
        } else {
            None
        }
    }
}

/// What a guarded call that returns an identifier of the given kind comes
/// to: an entity that owns the new identifier, or the failure.
pub open spec fn acquired(outcome: Result<i64, RecordView>, kind: IdKind) -> Result<
    EntityView,
    ErrorView,
> {
    match outcome {
        Ok(raw_id) => if raw_id == INVALID_ID {
            Err(ErrorView::InvalidHandle { id: raw_id })
        } else {
            Ok(EntityView { id: raw_id, kind })
        },
        Err(record) => Err(native_error(record)),
    }
}

/// The plain value of what an operation that yields an entity returned.
pub open spec fn entity_result(made: Result<Entity, Error>) -> Result<EntityView, ErrorView> {
    match made {
        Ok(entity) => Ok(entity@),
        Err(error) => Err(error@),
    }
}

fn acquire(outcome: Result<i64, ErrorRecord>, kind: IdKind) -> (made: Result<Entity, Error>)
    ensures
        entity_result(made) == acquired(raw_outcome(outcome), kind),
{
    match Handle::adopt(outcome) {
        Ok(handle) => Ok(Entity::new(handle, kind)),
        Err(error) => Err(error),
    }
}

impl<'a> Object<'a> {
    /// The identifier of the object.
    pub fn id(&self) -> (id: i64)
        ensures
            id == self@,
    {
        self.handle.id()
    }

    /// The call that asks the engine for the object's name.
    pub fn name_call(&self) -> (call: NativeCall)
        ensures
            call == (NativeCall::NameOf { id: self@ }),
    {
        NativeCall::NameOf { id: self.handle.id() }
    }

    /// The object's name, from what the guarded `name_call` came to: the
    /// text that the engine gave, or the failure with its record.
    pub fn name(&self, outcome: Result<String, ErrorRecord>) -> (name: Result<String, Error>)
        ensures
            match outcome {
                Ok(text) => name matches Ok(given) && given@ == text@,
                Err(record) => name matches Err(error) && error@ == native_error(record@),
            },
    {
        match outcome {
            Ok(text) => Ok(text),
            Err(record) => Err(Error::native(record)),
        }
    }

    /// The call that asks the engine for the file that holds the object.
    pub fn file_call(&self) -> (call: NativeCall)
        ensures
            call == (NativeCall::FileOf { id: self@ }),
    {
        NativeCall::FileOf { id: self.handle.id() }
    }

    /// The file that holds the object, from what the guarded `file_call`
    /// came to. The file is an entity of its own, with its own reference.
    pub fn file(&self, outcome: Result<i64, ErrorRecord>) -> (file: Result<Entity, Error>)
        ensures
            entity_result(file) == acquired(raw_outcome(outcome), IdKind::File),
    {
        acquire(outcome, IdKind::File)
    }
}

impl<'a> Location<'a> {
    /// The identifier of the location.
    pub fn id(&self) -> (id: i64)
        ensures
            id == self@,
    {
        self.handle.id()
    }
}

impl<'a> Container<'a> {
    /// The identifier of the container.
    pub fn id(&self) -> (id: i64)
        ensures
            id == self@,
    {
        self.handle.id()
    }

    /// The call that asks the engine for the container's dataspace.
    pub fn space_call(&self) -> (call: NativeCall)
        ensures
            call == (NativeCall::SpaceOf { id: self@ }),
    {
        NativeCall::SpaceOf { id: self.handle.id() }
    }

    /// The container's dataspace, from what the guarded `space_call` came
    /// to: an entity of its own, with its own reference.
    pub fn space(&self, outcome: Result<i64, ErrorRecord>) -> (space: Result<Entity, Error>)
        ensures
            entity_result(space) == acquired(raw_outcome(outcome), IdKind::Dataspace),
    {
        acquire(outcome, IdKind::Dataspace)
    }

    /// The call that asks the engine for the container's datatype.
    pub fn type_call(&self) -> (call: NativeCall)
        ensures
            call == (NativeCall::TypeOf { id: self@ }),
    {
        NativeCall::TypeOf { id: self.handle.id() }
    }

    /// The container's datatype, from what the guarded `type_call` came to:
    /// an entity of its own, with its own reference.
    pub fn datatype(&self, outcome: Result<i64, ErrorRecord>) -> (datatype: Result<Entity, Error>)
        ensures
            entity_result(datatype) == acquired(raw_outcome(outcome), IdKind::Datatype),
    {
        acquire(outcome, IdKind::Datatype)
    }
}

} // verus!
