//! What a periodic job decides on the reply to the command it sent.
use vstd::prelude::*;

use crate::native_types::error_severity::ErrorSeverity;
use crate::native_types::ErrorStruct;

verus! {

/// Whether a periodic job stops on the reply `packed_error` to its command:
/// only an error whose severity asks to shut the server down stops it, and
/// is handed on; any other reply lets it go on.
pub fn check_severity(packed_error: Result<(), (ErrorStruct, Option<ErrorSeverity>)>) -> (r: Result<(), ErrorStruct>)
    ensures
        r == (match packed_error {
            Err((e, Some(ErrorSeverity::ShutdownServer))) => Err(e),
            _ => Ok::<(), ErrorStruct>(()),
        }),
{
    if let Err((error, severity)) = packed_error {
        if let Some(ErrorSeverity::ShutdownServer) = severity {
            return Err(error);
        }
    }
    Ok(())
}

} // verus!
