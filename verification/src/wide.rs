//! 256-bit unsigned arithmetic, carried out by `ethnum::U256`.
//!
//! A product of two 128-bit numbers needs up to 256 bits. [`Wide`] holds such
//! a number as two 128-bit words, so that contracts can speak of its value;
//! every operation on it is one call into `ethnum`, whose result this module
//! states and does not prove.

use core::num::TryFromIntError;
use ethnum::U256;
use vstd::arithmetic::power2::pow2;
use vstd::prelude::*;

verus! {

/// A 256-bit unsigned integer: `hi` holds the upper 128 bits, `lo` the lower.
#[derive(Clone, Copy)]
pub(crate) struct Wide {
    pub(crate) hi: u128,
    pub(crate) lo: u128,
}

/// The largest value of a [`Wide`], `2^256 - 1`.
pub(crate) open spec fn wide_max() -> nat {
    0xffff_ffff_ffff_ffff_ffff_ffff_ffff_ffff_ffff_ffff_ffff_ffff_ffff_ffff_ffff_ffffnat
}

impl View for Wide {
    type V = nat;

    /// The number that the two words stand for.
    closed spec fn view(&self) -> nat {
        (self.hi * 0x1_0000_0000_0000_0000_0000_0000_0000_0000nat + self.lo) as nat
    }
}

impl Wide {
    /// `U256::from` applied to a `u128`: the same number in 256 bits.
    #[verifier::external_body]
    pub(crate) fn from_u128(value: u128) -> (wide: Wide)
        ensures
            wide@ == value,
    {
        let (hi, lo) = U256::from(value).into_words();
        Wide { hi, lo }
    }

    /// `U256::saturating_sub`: the difference, and zero where `rhs` is the
    /// larger of the two.
    #[verifier::external_body]
    pub(crate) fn saturating_sub(self, rhs: Wide) -> (difference: Wide)
        ensures
            difference@ == if self@ >= rhs@ { self@ - rhs@ } else { 0 },
    {
        let lhs = U256::from_words(self.hi, self.lo);
        let (hi, lo) = lhs.saturating_sub(U256::from_words(rhs.hi, rhs.lo)).into_words();
        Wide { hi, lo }
    }

    /// `U256::saturating_mul`: the product, and `2^256 - 1` where the product
    /// is larger than that.
    #[verifier::external_body]
    pub(crate) fn saturating_mul(self, rhs: Wide) -> (product: Wide)
        ensures
            product@ == if self@ * rhs@ <= wide_max() { self@ * rhs@ } else { wide_max() },
    {
        let lhs = U256::from_words(self.hi, self.lo);
        let (hi, lo) = lhs.saturating_mul(U256::from_words(rhs.hi, rhs.lo)).into_words();
        Wide { hi, lo }
    }

    /// `>>` of a `U256` by a `u32`: the value divided by `2^shift`, rounded
    /// down. A shift of 256 bits or more is left out, as `ethnum` panics on
    /// it in a debug build.
    #[verifier::external_body]
    pub(crate) fn shr(self, shift: u32) -> (shifted: Wide)
        requires
            shift < 256,
        ensures
            shifted@ == self@ / pow2(shift as nat),
    {
        let (hi, lo) = (U256::from_words(self.hi, self.lo) >> shift).into_words();
        Wide { hi, lo }
    }

    /// `u128::try_from` applied to a `U256`: the same number where it fits in
    /// 128 bits, an error where it does not.
    #[verifier::external_body]
    pub(crate) fn try_into_u128(self) -> (narrow: Result<u128, TryFromIntError>)
        ensures
            narrow is Ok <==> self@ <= u128::MAX,
            narrow matches Ok(value) ==> value == self@,
    {
        u128::try_from(U256::from_words(self.hi, self.lo))
    }
}

} // verus!
