//! Handle lifecycle and error capture for a hierarchical-data storage
//! engine that is reached only through numeric identifiers and that reports
//! failures on a per-thread error stack.
//!
//! The crate holds every decision of that layer and performs no native call
//! itself: each operation names the call to make and says what its answer
//! means, so the caller that owns the engine bindings only carries values
//! back and forth.

pub mod course;
pub mod entity;
pub mod error;
pub mod guard;
pub mod handle;
pub mod ident;
pub mod location;
pub mod lock;
pub mod native;
pub mod refcount;
pub mod silence;

use vstd::prelude::*;

verus! {

/// The version of the engine as major, minor and release number. `queried`
/// is what the engine answered when asked under the lock; where it gave no
/// answer the version is `(0, 0, 0)`.
pub fn hdf5_version(queried: Option<(u8, u8, u8)>) -> (version: (u8, u8, u8))
    ensures
        version == (match queried {
            Some(answer) => answer,
            None => (0u8, 0u8, 0u8),
        }),
{
    match queried {
        Some(answer) => answer,
        None => (0, 0, 0),
    }
}

} // verus!
