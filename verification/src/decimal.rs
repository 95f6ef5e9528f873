//! The mathematics of the store's numeric columns.
//!
//! The store keeps 128-bit identifiers as arbitrary-precision decimals: an
//! unscaled integer of any size and a scale, standing for
//! `unscaled * 10^(-scale)`. This module says what such a value is and what it
//! means to cut it down to an integer.

use vstd::prelude::*;
use vstd::arithmetic::power::{pow, lemma_pow_positive, lemma_pow_adds};
use vstd::arithmetic::div_mod::{
    lemma_div_is_ordered, lemma_div_multiples_vanish, lemma_div_multiples_vanish_quotient,
};

verus! {

/// Ten to the power `e`.
pub open spec fn pow10(e: nat) -> int {
    pow(10, e)
}

/// The natural number that `bytes` write in base 256, most significant byte
/// first. The empty sequence writes zero.
pub open spec fn unsigned_be(bytes: Seq<u8>) -> nat
    decreases bytes.len(),
{
    if bytes.len() == 0 {
        0
    } else {
        256 * unsigned_be(bytes.drop_last()) + bytes.last() as nat
    }
}

/// The integer that `bytes` write in two's complement, most significant byte
/// first. The empty sequence writes zero.
pub open spec fn signed_be(bytes: Seq<u8>) -> int {
    if bytes.len() > 0 && bytes[0] >= 0x80 {
        unsigned_be(bytes) - pow(256, bytes.len())
    } else {
        unsigned_be(bytes) as int
    }
}

/// `a / b` rounded toward zero, for a positive `b`.
pub open spec fn div_toward_zero(a: int, b: int) -> int {
    if a >= 0 {
        a / b
    } else {
        -((-a) / b)
    }
}

/// The unscaled integer of a decimal after its scale is changed from `scale`
/// to `new_scale`: a larger scale appends zeros, a smaller one drops digits
/// without rounding.
pub open spec fn rescale(unscaled: int, scale: int, new_scale: int) -> int {
    if new_scale >= scale {
        unscaled * pow10((new_scale - scale) as nat)
    } else {
        div_toward_zero(unscaled, pow10((scale - new_scale) as nat))
    }
}

/// What a decimal is: `unscaled * 10^(-scale)`.
pub struct DecimalValue {
    pub unscaled: int,
    pub scale: int,
}

impl DecimalValue {
    /// The integral part of the value: the fraction is cut off, not rounded.
    pub open spec fn integral(self) -> int {
        rescale(self.unscaled, self.scale, 0)
    }

    /// Whether the value is at most that of `other`: the two are compared at
    /// the larger of their scales, at which both are written without loss.
    pub open spec fn le(self, other: DecimalValue) -> bool {
        let common = if self.scale >= other.scale {
            self.scale
        } else {
            other.scale
        };
        rescale(self.unscaled, self.scale, common) <= rescale(other.unscaled, other.scale, common)
    }
}

/// A decimal as the store hands it over: the unscaled integer in two's
/// complement, most significant byte first, and the scale.
#[derive(Clone, Debug, PartialEq, Eq)]
pub struct RawDecimal {
    pub digits: Vec<u8>,
    pub scale: i64,
}

impl View for RawDecimal {
    type V = DecimalValue;

    open spec fn view(&self) -> DecimalValue {
        DecimalValue { unscaled: signed_be(self.digits@), scale: self.scale as int }
    }
}

/// Fewer than `256^len` values can be written in `len` bytes.
pub proof fn lemma_unsigned_be_bound(bytes: Seq<u8>)
    ensures
        unsigned_be(bytes) < pow(256, bytes.len()),
    decreases bytes.len(),
{
    reveal(pow);
    if bytes.len() > 0 {
        lemma_unsigned_be_bound(bytes.drop_last());
        assert(pow(256, bytes.len()) == 256 * pow(256, (bytes.len() - 1) as nat));
    }
}

/// A two's complement integer of `len` bytes lies within `256^len` of zero.
pub proof fn lemma_signed_be_bound(bytes: Seq<u8>)
    ensures
        -pow(256, bytes.len()) <= signed_be(bytes) < pow(256, bytes.len()),
{
    lemma_unsigned_be_bound(bytes);
    lemma_pow_positive(256, bytes.len());
}

/// Cutting toward zero undoes a multiplication by the divisor.
proof fn lemma_div_toward_zero_of_multiple(x: int, p: int)
    requires
        0 < p,
    ensures
        div_toward_zero(x * p, p) == x,
{
    if x >= 0 {
        assert(x * p >= 0) by (nonlinear_arith)
            requires
                x >= 0,
                p > 0,
        ;
        lemma_div_multiples_vanish(x, p);
        assert(p * x == x * p) by (nonlinear_arith);
    } else {
        assert(x * p < 0) by (nonlinear_arith)
            requires
                x < 0,
                p > 0,
        ;
        lemma_div_multiples_vanish(-x, p);
        assert(p * (-x) == -(x * p)) by (nonlinear_arith);
    }
}

/// Cutting toward zero is not changed by a factor that dividend and divisor
/// share.
proof fn lemma_div_toward_zero_cancels(x: int, d: int, c: int)
    requires
        0 < d,
        0 < c,
    ensures
        div_toward_zero(x * c, d * c) == div_toward_zero(x, d),
{
    if x >= 0 {
        assert(x * c >= 0) by (nonlinear_arith)
            requires
                x >= 0,
                c > 0,
        ;
        lemma_div_multiples_vanish_quotient(c, x, d);
        assert(c * x == x * c && c * d == d * c) by (nonlinear_arith);
    } else {
        assert(x * c < 0) by (nonlinear_arith)
            requires
                x < 0,
                c > 0,
        ;
        lemma_div_multiples_vanish_quotient(c, -x, d);
        assert(c * (-x) == -(x * c) && c * d == d * c) by (nonlinear_arith);
    }
}

/// Cutting toward zero keeps the order.
proof fn lemma_div_toward_zero_is_ordered(x: int, y: int, p: int)
    requires
        x <= y,
        0 < p,
    ensures
        div_toward_zero(x, p) <= div_toward_zero(y, p),
{
    if x >= 0 {
        lemma_div_is_ordered(x, y, p);
    } else if y >= 0 {
        lemma_div_is_ordered(0, -x, p);
        lemma_div_is_ordered(0, y, p);
    } else {
        lemma_div_is_ordered(-y, -x, p);
    }
}

/// The integral part of a decimal does not depend on the scale at which the
/// decimal is written, as long as that scale loses nothing.
pub proof fn lemma_integral_of_finer_scale(unscaled: int, scale: int, finer: int)
    requires
        scale <= finer,
    ensures
        rescale(rescale(unscaled, scale, finer), finer, 0) == rescale(unscaled, scale, 0),
{
    let added = (finer - scale) as nat;
    let shifted = unscaled * pow10(added);
    lemma_pow_positive(10, added);
    if finer <= 0 {
        let up = (-finer) as nat;
        lemma_pow_adds(10, added, up);
        assert(added + up == (-scale) as nat);
        assert(shifted * pow10(up) == unscaled * (pow10(added) * pow10(up))) by (nonlinear_arith)
            requires
                shifted == unscaled * pow10(added),
        ;
    } else if scale <= 0 {
        let up = (-scale) as nat;
        let down = finer as nat;
        lemma_pow_adds(10, up, down);
        lemma_pow_positive(10, down);
        assert(up + down == added);
        assert(shifted == (unscaled * pow10(up)) * pow10(down)) by (nonlinear_arith)
            requires
                shifted == unscaled * pow10(added),
                pow10(added) == pow10(up) * pow10(down),
        ;
        lemma_div_toward_zero_of_multiple(unscaled * pow10(up), pow10(down));
    } else {
        let down = scale as nat;
        lemma_pow_adds(10, down, added);
        lemma_pow_positive(10, down);
        assert(down + added == finer as nat);
        lemma_div_toward_zero_cancels(unscaled, pow10(down), pow10(added));
    }
}

/// On decimals of one scale, the integral part keeps the order of the
/// unscaled integers.
pub proof fn lemma_integral_is_ordered_at_scale(smaller: int, larger: int, scale: int)
    requires
        smaller <= larger,
    ensures
        rescale(smaller, scale, 0) <= rescale(larger, scale, 0),
{
    if scale <= 0 {
        let p = pow10((-scale) as nat);
        lemma_pow_positive(10, (-scale) as nat);
        assert(smaller * p <= larger * p) by (nonlinear_arith)
            requires
                smaller <= larger,
                p > 0,
        ;
    } else {
        lemma_pow_positive(10, scale as nat);
        lemma_div_toward_zero_is_ordered(smaller, larger, pow10(scale as nat));
    }
}

/// The integral part keeps the order of decimals: of two decimals, the one
/// that is not larger has the integral part that is not larger.
pub proof fn lemma_integral_is_monotonic(a: DecimalValue, b: DecimalValue)
    requires
        a.le(b),
    ensures
        a.integral() <= b.integral(),
{
    let common = if a.scale >= b.scale {
        a.scale
    } else {
        b.scale
    };
    lemma_integral_of_finer_scale(a.unscaled, a.scale, common);
    lemma_integral_of_finer_scale(b.unscaled, b.scale, common);
    lemma_integral_is_ordered_at_scale(
        rescale(a.unscaled, a.scale, common),
        rescale(b.unscaled, b.scale, common),
        common,
    );
}

} // verus!
