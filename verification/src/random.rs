//! The one source of randomness: uniform variates in `[0, 1)`.
use crate::scalar::{dyadic, dyadic_req, dyadic_spec, obeys_scalar_specs, Scalar};
use vstd::prelude::*;

verus! {

/// Thirty-two random bits from `rand::random::<u32>()`, which draws them
/// from the generator of the calling thread.
///
/// Nothing is claimed of the bits: two calls may differ.
#[verifier::external_body]
fn random_bits() -> (bits: u32) {
    rand::random::<u32>()
}

/// The number of values a uniform variate can take: two to the twenty-fourth.
pub const UNIT_STEPS: u32 = 0x100_0000;

/// Whether `T` can turn every 24-bit numerator into a variate.
pub open spec fn unit_req<T: Scalar>() -> bool {
    forall|numerator: u32| numerator < UNIT_STEPS ==> #[trigger] dyadic_req::<T>(numerator)
}

/// The variate that the random bits `bits` stand for: their upper 24 bits
/// over two to the twenty-fourth.
pub open spec fn unit_from_bits_spec<T: Scalar>(bits: u32) -> T {
    dyadic_spec::<T>(bits / 256)
}

/// Turns 32 random bits into a variate in `[0, 1)`: a multiple of `2^-24`
/// with the upper 24 bits as numerator, as many as a single-precision
/// mantissa holds.
pub fn unit_from_bits<T: Scalar>(bits: u32) -> (r: T)
    requires
        obeys_scalar_specs::<T>(),
        dyadic_req::<T>(bits / 256),
    ensures
        r == unit_from_bits_spec::<T>(bits),
{
    dyadic(bits / 256)
}

/// Draws a uniform variate from `[0, 1)`.
///
/// Whatever is drawn, it is one of the `2^24` multiples of `2^-24` below
/// one.
pub fn random_unit<T: Scalar>() -> (r: T)
    requires
        obeys_scalar_specs::<T>(),
        unit_req::<T>(),
    ensures
        exists|numerator: u32| numerator < UNIT_STEPS && r == #[trigger] dyadic_spec::<T>(numerator),
{
    let bits = random_bits();
    assert(dyadic_req::<T>(bits / 256));
    unit_from_bits(bits)
}

} // verus!
