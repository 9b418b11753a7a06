//! Closing parts that run on threads of their own.
use vstd::prelude::*;

use crate::native_types::ErrorStruct;

verus! {

/// A safe way to close structures that have active threads and/or channels
/// which connect the structure with other threads.
pub trait Joinable<T> {
    /// Does the safe close.
    fn join(&mut self) -> Result<T, ErrorStruct>;
}

} // verus!
