//! Handles: the owners of native identifiers.
//!
//! A handle stands for one reference that the engine counts on its
//! identifier. Making another handle of the same identifier takes one more
//! reference, and giving a handle up gives one back; the engine's count, not
//! one kept here, decides when the identifier is released.

use vstd::prelude::*;
use crate::error::{native_error, Diagnostic, Error, ErrorRecord, ErrorView};
use crate::ident::INVALID_ID;
use crate::native::NativeCall;

verus! {

/// The owner of one reference to a native identifier. It is never the
/// invalid identifier.
#[derive(Debug, PartialEq, Eq)]
pub struct Handle {
    id: i64,
}

impl View for Handle {
    type V = i64;

    closed spec fn view(&self) -> i64 {
        self.id
    }
}

/// A look at a handle that owns nothing: it names the identifier, for logs
/// and comparisons, and lives no longer than the handle it was taken from.
#[derive(Clone, Copy, Debug)]
pub struct Borrowed<'a> {
    source: &'a Handle,
}

impl<'a> View for Borrowed<'a> {
    type V = i64;

    closed spec fn view(&self) -> i64 {
        self.source@
    }
}

impl<'a> Borrowed<'a> {
    /// The identifier of the handle looked at.
    pub fn id(&self) -> (id: i64)
        ensures
            id == self@,
            id != INVALID_ID,
    {
        self.source.id()
    }

    /// Whether both look at the same identifier.
    pub fn same_as(&self, other: &Borrowed<'_>) -> (same: bool)
        ensures
            same == (self@ == other@),
    {
        self.source.id() == other.source.id()
    }
}

impl Handle {
    #[verifier::type_invariant]
    spec fn owns_an_identifier(self) -> bool {
        self.id != INVALID_ID
    }

    /// Takes over an identifier that was acquired from the engine. The
    /// invalid identifier is refused; every other is accepted.
    pub fn new(raw_id: i64) -> (made: Result<Handle, Error>)
        ensures
            match made {
                Ok(handle) => raw_id != INVALID_ID && handle@ == raw_id,
                Err(error) => raw_id == INVALID_ID && error@ == (ErrorView::InvalidHandle {
                    id: raw_id,
                }),
            },
    {
        if raw_id == INVALID_ID {
            Err(Error::InvalidHandle { id: raw_id })
        } else {
            Ok(Handle { id: raw_id })
        }
    }

    /// The identifier, to pass to a native call while the handle lives.
    pub fn id(&self) -> (id: i64)
        ensures
            id == self@,
            id != INVALID_ID,
    {
        proof {
            use_type_invariant(self);
        }
        self.id
    }

    /// A look at this handle that owns nothing.
    pub fn borrow(&self) -> (look: Borrowed<'_>)
        ensures
            look@ == self@,
    {
        Borrowed { source: self }
    }

    /// The call that takes the reference for one more handle of this
    /// identifier.
    pub fn clone_call(&self) -> (call: NativeCall)
        ensures
            call == issued(HandleOp::Clone, self@),
    {
        NativeCall::IncRef { id: self.id }
    }

    /// The handle that `clone_call` paid for. `outcome` is what the guarded
    /// call came to: where it succeeded there is a new handle of the same
    /// identifier; where it failed there is none, and the failure is handed
    /// on with its record.
    pub fn cloned(&self, outcome: Result<i64, ErrorRecord>) -> (made: Result<Handle, Error>)
        ensures
            match outcome {
                Ok(_) => made matches Ok(handle) && handle@ == self@,
                Err(record) => made matches Err(error) && error@ == native_error(record@),
            },
    {
        proof {
            use_type_invariant(self);
        }
        match outcome {
            Ok(_) => Ok(Handle { id: self.id }),
            Err(record) => Err(Error::native(record)),
        }
    }

    /// The handle of an identifier that a guarded call returned, newly
    /// acquired. A failed call is handed on with its record; the invalid
    /// identifier is refused as `new` refuses it.
    pub fn adopt(outcome: Result<i64, ErrorRecord>) -> (made: Result<Handle, Error>)
        ensures
            match outcome {
                Ok(raw_id) => if raw_id == INVALID_ID {
                    made matches Err(error) && error@ == (ErrorView::InvalidHandle { id: raw_id })
                } else {
                    made matches Ok(handle) && handle@ == raw_id
                },
                Err(record) => made matches Err(error) && error@ == native_error(record@),
            },
    {
        match outcome {
            Ok(raw_id) => Handle::new(raw_id),
            Err(record) => Err(Error::native(record)),
        }
    }

    /// Gives the handle up. The result is the call that gives its reference
    /// back to the engine: one call, for this identifier.
    pub fn release(self) -> (call: NativeCall)
        ensures
            call == issued(HandleOp::Drop, self@),
    {
        NativeCall::DecRef { id: self.id }
    }
}

/// What to log once the call of `Handle::release` for `id` was made. A
/// release that failed is reported with its record and is no error of the
/// operation around it; one that succeeded leaves nothing to say.
pub fn release_report(id: i64, outcome: Result<i64, ErrorRecord>) -> (report: Option<Diagnostic>)
    ensures
        match outcome {
            Ok(_) => report is None,
            Err(record) => report matches Some(diagnostic) && diagnostic.id == id
                && diagnostic.record@ == record@,
        },
{
    match outcome {
        Ok(_) => None,
        Err(record) => Some(Diagnostic { id, record }),
    }
}

/// What can be done with a live handle.
pub enum HandleOp {
    /// One more handle is made of it: the engine granted the reference.
    Clone,
    /// One more handle was asked for and the engine refused the reference,
    /// so none is made.
    RefusedClone,
    /// It is given up.
    Drop,
}

/// The native call that each operation on a handle of `id` leads to.
pub open spec fn issued(op: HandleOp, id: i64) -> NativeCall {
    match op {
        HandleOp::Clone | HandleOp::RefusedClone => NativeCall::IncRef { id },
        HandleOp::Drop => NativeCall::DecRef { id },
    }
}

} // verus!
