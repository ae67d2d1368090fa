//! Randomness for the candy spawner and the bounce-sound picker, behind a
//! single trusted wrapper around the `rand` crate.

use vstd::prelude::*;

verus! {

/// Relies on rand::random::<u64>: a random 64-bit value drawn from the
/// thread-local generator. Nothing is promised of the value; every caller
/// must cope with every outcome. The call aborts the process if the
/// operating system's entropy source fails when the generator is first
/// set up or reseeded — an environment failure independent of any input,
/// of the same family as running out of memory.
#[verifier::external_body]
pub(crate) fn random_u64() -> u64 {
    rand::random::<u64>()
}

/// A random value below `n`, from one draw of the generator.
pub fn random_below(n: u64) -> (r: u64)
    requires
        n > 0,
    ensures
        r < n,
{
    random_u64() % n
}

/// A random value in the closed interval `[lo, hi]`.
pub fn random_in_range(lo: i64, hi: i64) -> (r: i64)
    requires
        lo <= hi,
        hi - lo < 0x7fff_ffff_ffff_ffff,
    ensures
        lo <= r <= hi,
{
    let span: u64 = ((hi - lo) as u64) + 1;
    let off: u64 = random_below(span);
    lo + (off as i64)
}

} // verus!
