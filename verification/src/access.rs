//! The access guard in front of the supply-changing operations.

use vstd::prelude::*;
use crate::error::LedgerError;

verus! {

/// Admits `caller` only if it is exactly the configured privileged caller.
pub fn verify_privileged(privileged_caller: &String, caller: &String) -> (verdict: Result<
    (),
    LedgerError,
>)
    ensures
        verdict == if caller@ == privileged_caller@ {
            Ok::<(), LedgerError>(())
        } else {
            Err::<(), LedgerError>(LedgerError::Unauthorized)
        },
{
    if *caller == *privileged_caller {
        Ok(())
    } else {
        Err(LedgerError::Unauthorized)
    }
}

} // verus!
