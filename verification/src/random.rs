use rand::Rng;
use vstd::prelude::*;

verus! {

/// A random index below `bound`, drawn with `Rng::gen_range` of the crate
/// `rand` on the thread's generator, over the range from 0 up to `bound`
/// exclusive. That function returns a value inside the range it is given,
/// and panics on an empty range, which `requires` leaves out.
#[verifier::external_body]
pub(crate) fn random_below(bound: usize) -> (index: usize)
    requires
        bound > 0,
    ensures
        index < bound,
{
    rand::thread_rng().gen_range(0..bound)
}

/// A random character, drawn with `Rng::gen_range` of the crate `rand` on
/// the thread's generator, over the range from `'!'` to `'~'` inclusive.
/// That function returns a value inside the range it is given.
#[verifier::external_body]
pub(crate) fn random_graphic_char() -> (c: char)
    ensures
        '!' <= c <= '~',
{
    rand::thread_rng().gen_range('!'..='~')
}

/// A random number, drawn with `random` of the crate `rand`. Nothing is
/// claimed of it: every value of the type can come back.
#[verifier::external_body]
pub(crate) fn random_u64() -> u64 {
    rand::random()
}

} // verus!
