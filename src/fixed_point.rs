//! Signed fixed-point numbers with 32 integer and 32 fraction bits.
use vstd::prelude::*;
use fixed::types::I32F32;

verus! {

/// Scale of the representation: a value `v` is stored as the integer `v * 2^32`.
pub open spec fn one() -> int {
    0x1_0000_0000
}

/// Clamp an integer into the range of the 64-bit representation.
pub open spec fn saturate(x: int) -> int {
    if x < i64::MIN {
        i64::MIN as int
    } else if x > i64::MAX {
        i64::MAX as int
    } else {
        x
    }
}

/// Integer division rounding toward zero.
pub open spec fn div_toward_zero(x: int, y: int) -> int
    recommends
        y != 0,
{
    let q = abs(x) / abs(y);
    if (x < 0) != (y < 0) {
        -q
    } else {
        q
    }
}

pub open spec fn abs(x: int) -> int {
    if x < 0 {
        -x
    } else {
        x
    }
}

/// Bits of the product of two fixed-point numbers given by their bits:
/// rounded toward negative infinity, saturated on overflow.
pub open spec fn mul_bits(a: int, b: int) -> int {
    saturate((a * b) / one())
}

/// Bits of the quotient of two fixed-point numbers given by their bits:
/// rounded toward zero, saturated on overflow.
pub open spec fn div_bits(a: int, b: int) -> int {
    saturate(div_toward_zero(a * one(), b))
}

/// Relies on fixed's `I32F32::saturating_mul`: the widened product is shifted
/// right by the 32 fraction bits (rounding toward negative infinity), and a
/// result out of range saturates to the bound of the product's sign.
#[verifier::external_body]
fn fixed_saturating_mul(a: i64, b: i64) -> (r: i64)
    ensures
        r == mul_bits(a as int, b as int),
{
    I32F32::from_bits(a).saturating_mul(I32F32::from_bits(b)).to_bits()
}

/// Relies on fixed's `I32F32::saturating_div`: the dividend is shifted left by
/// the 32 fraction bits and divided with rounding toward zero; a result out of
/// range saturates. It panics on a zero divisor, which `requires` leaves out.
#[verifier::external_body]
fn fixed_saturating_div(a: i64, b: i64) -> (r: i64)
    requires
        b != 0,
    ensures
        r == div_bits(a as int, b as int),
{
    I32F32::from_bits(a).saturating_div(I32F32::from_bits(b)).to_bits()
}

/// Clamp a wide integer into the 64-bit range.
fn clamp_wide(x: i128) -> (r: i64)
    ensures
        r == saturate(x as int),
{
    if x < i64::MIN as i128 {
        i64::MIN
    } else if x > i64::MAX as i128 {
        i64::MAX
    } else {
        x as i64
    }
}

/// A fixed-point number: `bits / 2^32`.
#[derive(Clone, Copy, Debug, PartialEq, Eq, Structural)]
pub struct Fix {
    pub bits: i64,
}

impl Fix {
    /// The value scaled by `2^32`.
    pub open spec fn raw(self) -> int {
        self.bits as int
    }

    pub fn zero() -> (r: Fix)
        ensures
            r.raw() == 0,
    {
        Fix { bits: 0 }
    }

    pub fn from_bits(bits: i64) -> (r: Fix)
        ensures
            r.bits == bits,
    {
        Fix { bits }
    }

    /// The integer `n` as a fixed-point number.
    pub fn from_int(n: i32) -> (r: Fix)
        ensures
            r.raw() == n as int * one(),
    {
        assert(-0x8000_0000 <= n as int <= 0x7fff_ffff);
        assert(n as int * one() <= 0x7fff_ffff * one()) by (nonlinear_arith)
            requires n as int <= 0x7fff_ffff, one() > 0;
        assert(n as int * one() >= -0x8000_0000 * one()) by (nonlinear_arith)
            requires n as int >= -0x8000_0000, one() > 0;
        Fix { bits: (n as i64) * 0x1_0000_0000i64 }
    }

    /// The integer `n` as a fixed-point number, saturated to the range.
    pub fn from_wide_int(n: i64) -> (r: Fix)
        ensures
            r.raw() == saturate(n as int * one()),
    {
        if n > 0x7fff_ffff {
            assert(n as int * one() > i64::MAX) by (nonlinear_arith)
                requires n as int > 0x7fff_ffff, one() == 0x1_0000_0000;
            Fix { bits: i64::MAX }
        } else if n < -0x8000_0000 {
            assert(n as int * one() < i64::MIN) by (nonlinear_arith)
                requires (n as int) < -0x8000_0000, one() == 0x1_0000_0000;
            Fix { bits: i64::MIN }
        } else {
            Fix::from_int(n as i32)
        }
    }

    /// The fraction `num / den`, rounded toward zero.
    pub fn from_ratio(num: i32, den: i32) -> (r: Fix)
        requires
            den != 0,
        ensures
            r.raw() == div_bits(num as int * one(), den as int * one()),
    {
        let n = Fix::from_int(num);
        let d = Fix::from_int(den);
        assert(d.raw() != 0) by (nonlinear_arith)
            requires d.raw() == den as int * one(), den != 0, one() > 0;
        n.div(d)
    }

    pub fn add(self, o: Fix) -> (r: Fix)
        ensures
            r.raw() == saturate(self.raw() + o.raw()),
    {
        Fix { bits: clamp_wide(self.bits as i128 + o.bits as i128) }
    }

    pub fn sub(self, o: Fix) -> (r: Fix)
        ensures
            r.raw() == saturate(self.raw() - o.raw()),
    {
        Fix { bits: clamp_wide(self.bits as i128 - o.bits as i128) }
    }

    pub fn neg(self) -> (r: Fix)
        ensures
            r.raw() == saturate(-self.raw()),
    {
        if self.bits == i64::MIN {
            Fix { bits: i64::MAX }
        } else {
            Fix { bits: -self.bits }
        }
    }

    pub fn abs(self) -> (r: Fix)
        ensures
            r.raw() == saturate(abs(self.raw())),
    {
        if self.bits < 0 {
            self.neg()
        } else {
            self
        }
    }

    pub fn mul(self, o: Fix) -> (r: Fix)
        ensures
            r.raw() == mul_bits(self.raw(), o.raw()),
    {
        Fix { bits: fixed_saturating_mul(self.bits, o.bits) }
    }

    pub fn div(self, o: Fix) -> (r: Fix)
        requires
            o.raw() != 0,
        ensures
            r.raw() == div_bits(self.raw(), o.raw()),
    {
        Fix { bits: fixed_saturating_div(self.bits, o.bits) }
    }
}

} // verus!
