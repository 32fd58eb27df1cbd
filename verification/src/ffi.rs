use vstd::prelude::*;

verus! {

/// The code by which libavif reports success (`AVIF_RESULT_OK`).
pub const AVIF_RESULT_OK: u32 = 0;

/// `true` when a libavif result code is `AVIF_RESULT_OK`.
pub fn is_ok(result: u32) -> (ok: bool)
    ensures
        ok == (result == AVIF_RESULT_OK),
{
    result == AVIF_RESULT_OK
}

} // verus!
