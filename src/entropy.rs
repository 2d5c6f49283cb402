use vstd::prelude::*;
use rand::rngs::OsRng;
use rand::RngCore;

verus! {

/// Relies on `rand::RngCore::fill_bytes` for `OsRng`: overwrites every byte of
/// `buf` with output of the operating system's secure random source. Nothing is
/// promised about the values, only that the buffer keeps its length.
#[verifier::external_body]
pub(crate) fn fill_random(buf: &mut [u8])
    ensures
        final(buf)@.len() == old(buf)@.len(),
{
    OsRng.fill_bytes(buf);
}

} // verus!
