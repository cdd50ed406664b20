//! Checks on the interrupt level of the caller.

use vstd::prelude::*;
use crate::error::RuntimeError;

verus! {

/// Accepts a caller that runs at level `current` where at most level `irql`
/// is allowed.
pub fn irql_requires(current: u8, irql: u64) -> (r: Result<(), RuntimeError>)
    ensures
        current <= irql ==> r == Ok::<(), RuntimeError>(()),
        current > irql ==> r == Err::<(), RuntimeError>(RuntimeError::InvalidIRQL(current)),
{
    if current as u64 > irql {
        return Err(RuntimeError::InvalidIRQL(current));
    }
    Ok(())
}

} // verus!
