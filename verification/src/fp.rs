//! IEEE-754 binary64 scalars, carried by their bit patterns.
//!
//! A [`Fp`] holds the 64 raw bits of a double-precision value. Operations
//! whose result is a pure bit manipulation (negation, absolute value, the
//! NaN test, the ordered comparisons) are implemented and verified here
//! against their bit-level definitions. Rounded arithmetic and the
//! transcendental functions are deterministic functions of the operand bits
//! alone; they are named by uninterpreted spec functions and computed by
//! trusted wrappers over `rustc_apfloat` (IEEE-754 arithmetic in software)
//! and `libm` (portable elementary functions).

use vstd::prelude::*;
use rustc_apfloat::Float;
use rustc_apfloat::ieee::Double;

verus! {

/// The bits of the rounded sum of the two doubles `a` and `b`.
pub uninterp spec fn fadd(a: u64, b: u64) -> u64;

/// The bits of the rounded difference of the two doubles `a` and `b`.
pub uninterp spec fn fsub(a: u64, b: u64) -> u64;

/// The bits of the rounded product of the two doubles `a` and `b`.
pub uninterp spec fn fmul(a: u64, b: u64) -> u64;

/// The bits of the rounded quotient of the two doubles `a` and `b`.
pub uninterp spec fn fdiv(a: u64, b: u64) -> u64;

/// The bits of the remainder of the doubles `a` and `b`, rounded toward zero.
pub uninterp spec fn frem(a: u64, b: u64) -> u64;

/// The bits of the sine of the double `a`.
pub uninterp spec fn fsin(a: u64) -> u64;

/// The bits of the cosine of the double `a`.
pub uninterp spec fn fcos(a: u64) -> u64;

/// The bits of the square root of the double `a`.
pub uninterp spec fn fsqrt(a: u64) -> u64;

/// The bits of the double `a` rounded up to an integral value.
pub uninterp spec fn fceil(a: u64) -> u64;

/// The double `a` converted to a `usize`: truncated toward zero,
/// saturating at the ends of the range, with NaN mapped to zero.
pub uninterp spec fn fp_to_usize(a: u64) -> usize;

/// The bits of the double nearest to the integer `n` (ties to even).
pub uninterp spec fn fp_of_usize(n: usize) -> u64;

/// The sign bit of a binary64 pattern.
pub const SIGN_MASK: u64 = 0x8000_0000_0000_0000;

/// The exponent and fraction bits of a binary64 pattern.
pub const MAG_MASK: u64 = 0x7fff_ffff_ffff_ffff;

/// The exponent bits of a binary64 pattern.
pub const EXP_MASK: u64 = 0x7ff0_0000_0000_0000;

/// The fraction bits of a binary64 pattern.
pub const FRAC_MASK: u64 = 0x000f_ffff_ffff_ffff;

/// An IEEE-754 binary64 value, as its raw bit pattern.
#[derive(Clone, Copy, PartialEq, Eq, Structural, Debug)]
pub struct Fp {
    pub bits: u64,
}

/// The `Fp` with bit pattern `b`.
pub open spec fn fp(b: u64) -> Fp {
    Fp { bits: b }
}

impl Fp {
    /// The bits of positive zero.
    pub open spec fn spec_zero() -> Fp {
        fp(0)
    }

    /// Whether the pattern is a NaN: all exponent bits set, nonzero fraction.
    pub open spec fn spec_is_nan(self) -> bool {
        self.bits & EXP_MASK == EXP_MASK && self.bits & FRAC_MASK != 0
    }

    /// Whether the sign bit is set.
    pub open spec fn spec_sign(self) -> bool {
        self.bits & SIGN_MASK == SIGN_MASK
    }

    /// The magnitude bits: the pattern with the sign bit cleared.
    pub open spec fn spec_mag(self) -> u64 {
        self.bits & MAG_MASK
    }

    /// The IEEE `<` order: false when either side is NaN, the two zeros
    /// equal, and otherwise the sign-magnitude order of the patterns.
    pub open spec fn spec_lt(self, o: Fp) -> bool {
        &&& !self.spec_is_nan()
        &&& !o.spec_is_nan()
        &&& if self.spec_sign() && o.spec_sign() {
                self.spec_mag() > o.spec_mag()
            } else if self.spec_sign() && !o.spec_sign() {
                self.spec_mag() != 0 || o.spec_mag() != 0
            } else if !self.spec_sign() && o.spec_sign() {
                false
            } else {
                self.spec_mag() < o.spec_mag()
            }
    }

    /// The IEEE `>` order.
    pub open spec fn spec_gt(self, o: Fp) -> bool {
        o.spec_lt(self)
    }

    pub open spec fn spec_add(self, o: Fp) -> Fp {
        fp(fadd(self.bits, o.bits))
    }

    pub open spec fn spec_sub(self, o: Fp) -> Fp {
        fp(fsub(self.bits, o.bits))
    }

    pub open spec fn spec_mul(self, o: Fp) -> Fp {
        fp(fmul(self.bits, o.bits))
    }

    pub open spec fn spec_div(self, o: Fp) -> Fp {
        fp(fdiv(self.bits, o.bits))
    }

    pub open spec fn spec_rem(self, o: Fp) -> Fp {
        fp(frem(self.bits, o.bits))
    }

    /// Negation is exact: it flips the sign bit and nothing else.
    pub open spec fn spec_neg(self) -> Fp {
        fp(self.bits ^ SIGN_MASK)
    }

    /// Absolute value is exact: it clears the sign bit and nothing else.
    pub open spec fn spec_abs(self) -> Fp {
        fp(self.bits & MAG_MASK)
    }

    pub open spec fn spec_sin(self) -> Fp {
        fp(fsin(self.bits))
    }

    pub open spec fn spec_cos(self) -> Fp {
        fp(fcos(self.bits))
    }

    pub open spec fn spec_sqrt(self) -> Fp {
        fp(fsqrt(self.bits))
    }

    pub open spec fn spec_ceil(self) -> Fp {
        fp(fceil(self.bits))
    }

    /// The value whose bit pattern is `b`.
    pub fn from_bits(b: u64) -> (r: Fp)
        ensures
            r == fp(b),
    {
        Fp { bits: b }
    }

    /// The raw bit pattern.
    pub fn to_bits(self) -> (r: u64)
        ensures
            r == self.bits,
    {
        self.bits
    }

    /// Positive zero.
    pub fn zero() -> (r: Fp)
        ensures
            r == Fp::spec_zero(),
    {
        Fp { bits: 0 }
    }

    /// Whether the value is a NaN.
    pub fn is_nan(self) -> (r: bool)
        ensures
            r == self.spec_is_nan(),
    {
        self.bits & EXP_MASK == EXP_MASK && self.bits & FRAC_MASK != 0
    }

    /// The IEEE `<` comparison.
    pub fn lt(self, o: Fp) -> (r: bool)
        ensures
            r == self.spec_lt(o),
    {
        if self.is_nan() || o.is_nan() {
            false
        } else {
            let sa = self.bits & SIGN_MASK == SIGN_MASK;
            let sb = o.bits & SIGN_MASK == SIGN_MASK;
            let ma = self.bits & MAG_MASK;
            let mb = o.bits & MAG_MASK;
            if sa && sb {
                ma > mb
            } else if sa && !sb {
                ma != 0 || mb != 0
            } else if !sa && sb {
                false
            } else {
                ma < mb
            }
        }
    }

    /// The IEEE `>` comparison.
    pub fn gt(self, o: Fp) -> (r: bool)
        ensures
            r == self.spec_gt(o),
    {
        o.lt(self)
    }

    /// Negation: flips the sign bit.
    pub fn neg(self) -> (r: Fp)
        ensures
            r == self.spec_neg(),
    {
        Fp { bits: self.bits ^ SIGN_MASK }
    }

    /// Absolute value: clears the sign bit.
    pub fn abs(self) -> (r: Fp)
        ensures
            r == self.spec_abs(),
    {
        Fp { bits: self.bits & MAG_MASK }
    }

    /// Relies on `rustc_apfloat`'s IEEE-754 binary64 addition, rounding to
    /// nearest with ties to even, for the result named by [`fadd`].
    #[verifier::external_body]
    pub fn add(self, o: Fp) -> (r: Fp)
        ensures
            r.bits == fadd(self.bits, o.bits),
    {
        let s = Double::from_bits(self.bits as u128) + Double::from_bits(o.bits as u128);
        Fp { bits: s.value.to_bits() as u64 }
    }

    /// Relies on `rustc_apfloat`'s IEEE-754 binary64 subtraction, rounding to
    /// nearest with ties to even, for the result named by [`fsub`].
    #[verifier::external_body]
    pub fn sub(self, o: Fp) -> (r: Fp)
        ensures
            r.bits == fsub(self.bits, o.bits),
    {
        let s = Double::from_bits(self.bits as u128) - Double::from_bits(o.bits as u128);
        Fp { bits: s.value.to_bits() as u64 }
    }

    /// Relies on `rustc_apfloat`'s IEEE-754 binary64 multiplication, rounding
    /// to nearest with ties to even, for the result named by [`fmul`].
    #[verifier::external_body]
    pub fn mul(self, o: Fp) -> (r: Fp)
        ensures
            r.bits == fmul(self.bits, o.bits),
    {
        let s = Double::from_bits(self.bits as u128) * Double::from_bits(o.bits as u128);
        Fp { bits: s.value.to_bits() as u64 }
    }

    /// Relies on `rustc_apfloat`'s IEEE-754 binary64 division, rounding to
    /// nearest with ties to even, for the result named by [`fdiv`].
    #[verifier::external_body]
    pub fn div(self, o: Fp) -> (r: Fp)
        ensures
            r.bits == fdiv(self.bits, o.bits),
    {
        let s = Double::from_bits(self.bits as u128) / Double::from_bits(o.bits as u128);
        Fp { bits: s.value.to_bits() as u64 }
    }

    /// Relies on `rustc_apfloat`'s `c_fmod` (the `%` of doubles: the exact
    /// remainder rounded toward zero) for the result named by [`frem`].
    #[verifier::external_body]
    pub fn rem(self, o: Fp) -> (r: Fp)
        ensures
            r.bits == frem(self.bits, o.bits),
    {
        let s = Double::from_bits(self.bits as u128) % Double::from_bits(o.bits as u128);
        Fp { bits: s.value.to_bits() as u64 }
    }

    /// Relies on `libm::sin`, whose result depends on the operand bits alone,
    /// for the result named by [`fsin`].
    #[verifier::external_body]
    pub fn sin(self) -> (r: Fp)
        ensures
            r.bits == fsin(self.bits),
    {
        Fp { bits: libm::sin(bytemuck::cast(self.bits)).to_bits() }
    }

    /// Relies on `libm::cos`, whose result depends on the operand bits alone,
    /// for the result named by [`fcos`].
    #[verifier::external_body]
    pub fn cos(self) -> (r: Fp)
        ensures
            r.bits == fcos(self.bits),
    {
        Fp { bits: libm::cos(bytemuck::cast(self.bits)).to_bits() }
    }

    /// Relies on `libm::sqrt`, the correctly rounded IEEE-754 square root,
    /// for the result named by [`fsqrt`].
    #[verifier::external_body]
    pub fn sqrt(self) -> (r: Fp)
        ensures
            r.bits == fsqrt(self.bits),
    {
        Fp { bits: libm::sqrt(bytemuck::cast(self.bits)).to_bits() }
    }

    /// Relies on `libm::ceil`, the exact rounding toward positive infinity,
    /// for the result named by [`fceil`].
    #[verifier::external_body]
    pub fn ceil(self) -> (r: Fp)
        ensures
            r.bits == fceil(self.bits),
    {
        Fp { bits: libm::ceil(bytemuck::cast(self.bits)).to_bits() }
    }

    /// Relies on `libm::trunc` and on Rust's saturating float-to-integer
    /// cast for the result named by [`fp_to_usize`].
    #[verifier::external_body]
    pub fn to_usize(self) -> (r: usize)
        ensures
            r == fp_to_usize(self.bits),
    {
        libm::trunc(bytemuck::cast(self.bits)) as usize
    }

    /// Relies on `rustc_apfloat`'s integer-to-double conversion, rounding to
    /// nearest with ties to even, for the result named by [`fp_of_usize`].
    #[verifier::external_body]
    pub fn from_usize(n: usize) -> (r: Fp)
        ensures
            r.bits == fp_of_usize(n),
    {
        let s = Double::from_u128(n as u128);
        Fp { bits: s.value.to_bits() as u64 }
    }
}

} // verus!
