use super::OK;
use vstd::prelude::*;

verus! {

/// Serves a request to verify a second factor. No second factor is checked
/// yet: the answer only tells that the service is alive.
pub fn verify_2fa() -> (status: u16)
    ensures
        status == OK,
{
    OK
}

} // verus!
