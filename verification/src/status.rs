use vstd::prelude::*;

verus! {

/// Errors surfaced by the discovery subsystem.
///
/// `ExtensionUnavailable` means a required backend extension is not
/// advertised; it is fatal at construction time and never retried.
/// `BackendError` carries the raw result code of a failed backend call; the
/// outstanding operation slot is cleared and the next cooldown cycle retries
/// independently. Per-record decode failures are not errors: those records
/// are skipped without failing the batch.
#[derive(Clone, Copy, Debug, PartialEq, Eq, Structural)]
pub enum DiscoveryError {
    ExtensionUnavailable,
    BackendError(i32),
}

/// Gate on one backend extension: succeeds exactly when it is advertised.
pub fn require_extension(present: bool) -> (r: Result<(), DiscoveryError>)
    ensures
        r is Ok <==> present,
        !present ==> r == Err::<(), DiscoveryError>(DiscoveryError::ExtensionUnavailable),
{
    if present {
        Ok(())
    } else {
        Err(DiscoveryError::ExtensionUnavailable)
    }
}

/// Classify a raw backend result code the way the call surface does:
/// non-negative codes (success and warnings) succeed, negative codes fail
/// with that code.
pub fn backend_call_result(code: i32) -> (r: Result<(), DiscoveryError>)
    ensures
        r is Ok <==> code >= 0,
        code < 0 ==> r == Err::<(), DiscoveryError>(DiscoveryError::BackendError(code)),
{
    if code >= 0 {
        Ok(())
    } else {
        Err(DiscoveryError::BackendError(code))
    }
}

/// Classify the result code embedded in an async completion structure: only
/// the strict success code (zero) completes the operation; any other code,
/// warning or error, fails the cycle with that code.
pub fn completion_result(code: i32) -> (r: Result<(), DiscoveryError>)
    ensures
        r is Ok <==> code == 0,
        code != 0 ==> r == Err::<(), DiscoveryError>(DiscoveryError::BackendError(code)),
{
    if code == 0 {
        Ok(())
    } else {
        Err(DiscoveryError::BackendError(code))
    }
}

} // verus!
