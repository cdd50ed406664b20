//! Status codes and the error type of the driver.

use vstd::prelude::*;

verus! {

/// The request was carried out.
pub const STATUS_SUCCESS: i32 = 0;

/// The request failed for a reason that has no code of its own (`0xC0000001`).
pub const STATUS_UNSUCCESSFUL: i32 = -1073741823;

/// An argument of the request is malformed or too small (`0xC000000D`).
pub const STATUS_INVALID_PARAMETER: i32 = -1073741811;

/// The device does not know this kind of request (`0xC0000010`).
pub const STATUS_INVALID_DEVICE_REQUEST: i32 = -1073741808;

/// The device cannot be reached right now (`0x80000011`).
pub const STATUS_DEVICE_BUSY: i32 = -2147483631;

/// Whether a status code reports success: all codes that are not negative do.
pub open spec fn is_success(status: i32) -> bool {
    status >= 0
}

#[verifier::when_used_as_spec(is_success)]
pub fn nt_success(status: i32) -> (ok: bool)
    ensures
        ok == is_success(status),
{
    status >= 0
}

#[derive(Debug, Clone, Copy, PartialEq, Eq, Structural)]
pub enum RuntimeError {
    /// A step failed with this status code.
    Failure(i32),
    /// The caller runs at this interrupt level, which is too high.
    InvalidIRQL(u8),
}

impl RuntimeError {
    /// The status code that completes a request which ended in this error.
    pub open spec fn spec_status(self) -> i32 {
        match self {
            RuntimeError::Failure(status) => status,
            RuntimeError::InvalidIRQL(_) => STATUS_UNSUCCESSFUL,
        }
    }

    #[verifier::when_used_as_spec(spec_status)]
    pub fn status(self) -> (status: i32)
        ensures
            status == self.spec_status(),
    {
        match self {
            RuntimeError::Failure(status) => status,
            RuntimeError::InvalidIRQL(_) => STATUS_UNSUCCESSFUL,
        }
    }
}

/// Turns a final status code into a result: success for the codes that
/// report success, and the code as a failure otherwise.
pub fn outcome(status: i32) -> (r: Result<(), RuntimeError>)
    ensures
        is_success(status) ==> r == Ok::<(), RuntimeError>(()),
        !is_success(status) ==> r == Err::<(), RuntimeError>(RuntimeError::Failure(status)),
{
    if nt_success(status) {
        Ok(())
    } else {
        Err(RuntimeError::Failure(status))
    }
}

} // verus!
