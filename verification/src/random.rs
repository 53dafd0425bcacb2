//! Random choices.
use vstd::prelude::*;

verus! {

/// `rand::random::<u64>()`: a random number from the thread's generator.
/// Nothing is claimed of the value.
#[verifier::external_body]
pub(crate) fn random_u64() -> u64 {
    rand::random::<u64>()
}

/// The index that a random number `r` chooses among `len` items: `r`
/// modulo `len`.
pub fn pick_index(r: u64, len: usize) -> (res: usize)
    requires
        len > 0,
    ensures
        res == r as int % len as int,
        res < len,
{
    (r % (len as u64)) as usize
}

/// A random index below `len`.
pub fn random_index(len: usize) -> (res: usize)
    requires
        len > 0,
    ensures
        res < len,
{
    pick_index(random_u64(), len)
}

} // verus!
