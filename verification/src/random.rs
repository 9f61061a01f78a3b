//! The random choices the library makes, through the `rand` crate.

use vstd::prelude::*;

use rand::Rng;
use rand::seq::SliceRandom;

verus! {

/// An ASCII letter or digit, as a byte.
pub open spec fn is_alphanumeric_byte(b: u8) -> bool {
    (0x41 <= b <= 0x5a) || (0x61 <= b <= 0x7a) || (0x30 <= b <= 0x39)
}

/// An ASCII letter or digit.
pub open spec fn is_alphanumeric_char(c: char) -> bool {
    ('A' <= c <= 'Z') || ('a' <= c <= 'z') || ('0' <= c <= '9')
}

/// `rand::distributions::Alphanumeric` sampled with the thread-local
/// generator: the claim is only that the byte is one of `A-Z`, `a-z`,
/// `0-9`, the table that distribution draws from.
#[verifier::external_body]
pub(crate) fn random_alphanumeric() -> (b: u8)
    ensures
        is_alphanumeric_byte(b),
{
    rand::thread_rng().sample(rand::distributions::Alphanumeric)
}

/// `SliceRandom::choose` with the thread-local generator: the claim is that
/// it gives nothing exactly for an empty slice, and otherwise one of the
/// slice's elements (which one is left open).
#[verifier::external_body]
pub(crate) fn pick_random<T>(items: &[T]) -> (r: Option<&T>)
    ensures
        r is None <==> items@.len() == 0,
        r matches Some(x) ==> exists|i: int| 0 <= i < items@.len() && items@[i] == *x,
{
    items.choose(&mut rand::thread_rng())
}

} // verus!
