//! The identifier codec: 128-bit identifiers to and from the store's decimals.
//!
//! The arithmetic on decimals is done by the `bigdecimal` crate; this module
//! keeps it away from scales on which it cannot finish and proves that what
//! comes back is the integral part of the decimal, where that is an
//! identifier.

use vstd::prelude::*;
use vstd::arithmetic::power::{pow, lemma_pow_positive, lemma_pow_increases, lemma_pow_adds};
use vstd::arithmetic::div_mod::lemma_basic_div;
use bigdecimal::BigDecimal;
use bigdecimal::num_bigint::BigInt;
use num_traits::ToPrimitive;
use crate::decimal::{
    pow10, signed_be, div_toward_zero, rescale, DecimalValue, RawDecimal, lemma_signed_be_bound,
};

verus! {

/// The largest number of zeros that can follow a non-zero digit in an
/// identifier: `10^39` is above every 128-bit value.
pub const MAX_TRAILING_ZEROS: i64 = 38;

/// An integer as an identifier, where it is one.
pub open spec fn narrowed(value: int) -> Option<u128> {
    if 0 <= value <= u128::MAX {
        Some(value as u128)
    } else {
        None
    }
}

/// The identifier that a decimal stands for: its integral part, where that
/// fits in 128 bits and is not negative.
pub open spec fn decoded(value: DecimalValue) -> Option<u128> {
    narrowed(value.integral())
}

/// The decimal that stands for an identifier: the identifier itself as the
/// unscaled integer, with no digits after the point.
pub open spec fn encoded(id: u128) -> DecimalValue {
    DecimalValue { unscaled: id as int, scale: 0 }
}

/// `BigDecimal::with_scale`, on the decimal that `raw` writes down. Trusted:
/// the digits that come back write the unscaled integer of that decimal at the
/// scale `new_scale`, with zeros appended or digits dropped toward zero. The
/// change of scale is kept in the range over which the crate's power of ten
/// stays as small as the digits themselves.
#[verifier::external_body]
fn with_scale(raw: &RawDecimal, new_scale: i64) -> (digits: Vec<u8>)
    requires
        -MAX_TRAILING_ZEROS <= raw.scale - new_scale <= 3 * raw.digits.len(),
        raw.scale - new_scale <= i64::MAX,
    ensures
        signed_be(digits@) == rescale(raw@.unscaled, raw@.scale, new_scale as int),
{
    let unscaled = BigInt::from_signed_bytes_be(&raw.digits);
    let rescaled = BigDecimal::new(unscaled, raw.scale).with_scale(new_scale);
    let (digits, _) = rescaled.into_bigint_and_exponent();
    digits.to_signed_bytes_be()
}

/// `ToPrimitive::to_u128` of `BigInt`, on the integer that `digits` write.
/// Trusted: the integer itself where it lies in `0..=u128::MAX`, and nothing
/// elsewhere.
#[verifier::external_body]
fn digits_to_u128(digits: &Vec<u8>) -> (value: Option<u128>)
    ensures
        value == narrowed(signed_be(digits@)),
{
    BigInt::from_signed_bytes_be(digits).to_u128()
}

/// `BigDecimal::from` for `u128`. Trusted: the decimal has `id` as its unscaled
/// integer and scale zero.
#[verifier::external_body]
fn decimal_from_u128(id: u128) -> (raw: RawDecimal)
    ensures
        raw@ == encoded(id),
{
    let (unscaled, scale) = BigDecimal::from(id).into_bigint_and_exponent();
    RawDecimal { digits: unscaled.to_signed_bytes_be(), scale }
}

/// Ten to the 39th is more than 128 bits hold.
proof fn lemma_pow10_39()
    ensures
        pow10(39) > u128::MAX,
{
    reveal(pow);
    assert(pow(10, 13) == 10_000_000_000_000int) by {
        reveal_with_fuel(pow, 14);
    }
    lemma_pow_adds(10, 13, 13);
    lemma_pow_adds(10, 26, 13);
    assert(pow(10, 26) == 10_000_000_000_000int * 10_000_000_000_000int);
    assert(pow(10, 39) == pow(10, 26) * 10_000_000_000_000int);
}

/// A non-zero integer followed by 39 zeros or more is no identifier.
proof fn lemma_shift_overflows(unscaled: int, zeros: nat)
    requires
        unscaled != 0,
        zeros >= 39,
    ensures
        narrowed(unscaled * pow10(zeros)) is None,
{
    lemma_pow10_39();
    lemma_pow_increases(10, 39, zeros);
    let p = pow10(zeros);
    if unscaled > 0 {
        assert(unscaled * p >= p) by (nonlinear_arith)
            requires
                unscaled >= 1,
                p >= 0,
        ;
    } else {
        assert(unscaled * p < 0) by (nonlinear_arith)
            requires
                unscaled <= -1,
                p > 0,
        ;
    }
}

/// `len` bytes write less than a one followed by `3 * len` zeros.
proof fn lemma_pow256_below_pow10(len: nat)
    ensures
        pow(256, len) <= pow10(3 * len),
        len > 0 ==> pow(256, len) < pow10(3 * len),
    decreases len,
{
    reveal(pow);
    if len > 0 {
        let rest = (len - 1) as nat;
        lemma_pow256_below_pow10(rest);
        lemma_pow_positive(256, rest);
        assert(pow(10, 3) == 1000) by {
            reveal_with_fuel(pow, 4);
        }
        lemma_pow_adds(10, 3, 3 * rest);
        assert(3 + 3 * rest == 3 * len);
        let a = pow(256, rest);
        let b = pow10(3 * rest);
        assert(256 * a < 1000 * b) by (nonlinear_arith)
            requires
                0 < a <= b,
        ;
    }
}

/// A decimal with at least three digits after the point for each byte of its
/// unscaled integer has the integral part zero.
proof fn lemma_all_fraction(digits: Seq<u8>, scale: nat)
    requires
        scale > 0,
        scale >= 3 * digits.len(),
    ensures
        div_toward_zero(signed_be(digits), pow10(scale)) == 0,
{
    let u = signed_be(digits);
    let p = pow10(scale);
    lemma_signed_be_bound(digits);
    lemma_pow256_below_pow10(digits.len());
    lemma_pow_increases(10, 3 * digits.len(), scale);
    lemma_pow_positive(10, scale);
    if digits.len() == 0 {
        assert(u == 0);
    }
    if u >= 0 {
        lemma_basic_div(u, p);
    } else {
        lemma_basic_div(-u, p);
    }
}

/// Decodes a decimal of the store into an identifier.
///
/// The fraction is cut off and the integral part is taken as an unsigned
/// 128-bit integer. `None` says that it is negative or too large: a fact about
/// the stored value, not an error.
pub fn decode(raw: &RawDecimal) -> (id: Option<u128>)
    ensures
        id == decoded(raw@),
{
    if raw.scale < -MAX_TRAILING_ZEROS {
        let unscaled = digits_to_u128(&raw.digits);
        proof {
            if raw@.unscaled != 0 {
                lemma_shift_overflows(raw@.unscaled, (-raw.scale) as nat);
            }
        }
        match unscaled {
            Some(0) => Some(0),
            _ => None,
        }
    } else if raw.scale > 0 && raw.scale as u64 / 3 >= raw.digits.len() as u64 {
        proof {
            lemma_all_fraction(raw.digits@, raw.scale as nat);
        }
        Some(0)
    } else {
        let integral = with_scale(raw, 0);
        digits_to_u128(&integral)
    }
}

/// Encodes an identifier as a decimal of the store. Every identifier has one.
pub fn encode(id: u128) -> (raw: RawDecimal)
    ensures
        raw@ == encoded(id),
{
    decimal_from_u128(id)
}

/// Decoding undoes encoding: every identifier comes back from its decimal.
pub proof fn lemma_decode_encode(id: u128)
    ensures
        decoded(encoded(id)) == Some(id),
{
    reveal(pow);
    assert(pow10(0) == 1);
}

} // verus!
