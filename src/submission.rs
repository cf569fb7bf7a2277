//! The answer of the remote node to a submitted transaction.
use vstd::prelude::*;

use crate::error::Error;

verus! {

/// What a submission came to, from the node's `(error_code, error_message)`
/// answer: code zero accepts the transaction; any other code is a refusal,
/// reported with the node's code and reason as they came, and never retried.
pub fn submission_outcome(error_code: i32, error_message: String) -> (r: Result<(), Error>)
    ensures
        error_code == 0 ==> r is Ok,
        error_code != 0 ==> r == Err::<(), Error>(Error::SendFailed { code: error_code, reason: error_message }),
{
    if error_code != 0 {
        Err(Error::SendFailed { code: error_code, reason: error_message })
    } else {
        Ok(())
    }
}

} // verus!
