//! The liveness probe.

use crate::response::HttpOutcome;
use crate::response::STATUS_OK;
use vstd::prelude::*;

verus! {

/// Answers the liveness probe: always 200 with an empty body. It takes no
/// handle to the store, so the answer cannot depend on the store.
pub fn health_check() -> (out: HttpOutcome)
    ensures
        out.status == STATUS_OK,
        out.body@ == Seq::<u8>::empty(),
        out.is_success(),
{
    HttpOutcome::with_status(STATUS_OK)
}

} // verus!
