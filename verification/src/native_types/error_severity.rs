//! How to proceed after an error.
use vstd::prelude::*;

verus! {

/// Indicates how to proceed depending on the severity of the error.
#[derive(Debug, Clone, Copy, PartialEq, Eq, Structural, PartialOrd, Ord)]
pub enum ErrorSeverity {
    Comunicate,
    CloseClient,
    ShutdownServer,
}

} // verus!
