//! Window geometry.
//!
//! A dimension is an IEEE 754 binary64 number. This crate never rounds: it
//! keeps the number as its 64-bit pattern and reasons about the exact value the
//! pattern stands for, `significand * 2^exponent`.

use vstd::prelude::*;
use vstd::arithmetic::div_mod::{
    lemma_div_multiples_vanish, lemma_fundamental_div_mod, lemma_mod_multiples_basic,
};
use vstd::arithmetic::power2::{
    lemma2_to64, lemma2_to64_rest, lemma_pow2_adds, lemma_pow2_pos,
    lemma_pow2_strictly_increases, lemma_pow2_unfold, pow2,
};

verus! {

/// The sign bit of a binary64 pattern.
pub const SIGN_BIT: u64 = 0x8000_0000_0000_0000;

/// The lowest exponent bit: one more than the largest fraction field.
pub const HIDDEN_BIT: u64 = 0x0010_0000_0000_0000;

/// The exponent field of infinities and of values that are not numbers.
pub const EXPONENT_SPECIAL: u64 = 0x7ff;

/// Pattern of the number 800.
pub const DEFAULT_WIDTH_BITS: u64 = 0x4089_0000_0000_0000;

/// Pattern of the number 600.
pub const DEFAULT_HEIGHT_BITS: u64 = 0x4082_c000_0000_0000;

/// One dimension of a window, held as a binary64 bit pattern.
///
/// Two lengths are equal when their patterns are: positive and negative zero
/// differ, and a pattern that is not a number equals itself.
#[derive(Clone, Copy, Debug, PartialEq, Eq, Structural)]
pub struct Length {
    pub bits: u64,
}

impl Length {
    /// The pattern without its sign bit.
    pub open spec fn magnitude(&self) -> nat {
        (self.bits % SIGN_BIT) as nat
    }

    /// Whether the sign bit is set.
    pub open spec fn is_negative(&self) -> bool {
        self.bits >= SIGN_BIT
    }

    /// The eleven exponent bits.
    pub open spec fn exponent_field(&self) -> nat {
        self.magnitude() / (HIDDEN_BIT as nat)
    }

    /// The fifty-two fraction bits.
    pub open spec fn fraction_field(&self) -> nat {
        self.magnitude() % (HIDDEN_BIT as nat)
    }

    /// Neither an infinity nor a pattern that is not a number.
    pub open spec fn is_finite(&self) -> bool {
        self.exponent_field() < EXPONENT_SPECIAL
    }

    /// Finite and not below zero. Negative zero counts as zero.
    pub open spec fn spec_is_live(&self) -> bool {
        self.is_finite() && (self.magnitude() == 0 || !self.is_negative())
    }

    /// The integer `m` of the value `m * 2^e`; meaningful for finite patterns.
    pub open spec fn spec_significand(&self) -> nat {
        if self.exponent_field() == 0 {
            self.fraction_field()
        } else {
            self.fraction_field() + HIDDEN_BIT as nat
        }
    }

    /// The integer `e` of the value `m * 2^e`; meaningful for finite patterns.
    pub open spec fn spec_exponent(&self) -> int {
        if self.exponent_field() == 0 {
            -1074
        } else {
            self.exponent_field() - 1075
        }
    }

    /// The pattern stands for exactly the natural number `n`.
    pub open spec fn denotes(&self, n: nat) -> bool {
        &&& self.spec_is_live()
        &&& scaled_eq(n, self.spec_significand(), self.spec_exponent())
    }

    /// Wraps a bit pattern; every pattern is accepted.
    pub fn from_bits(bits: u64) -> (r: Length)
        ensures
            r.bits == bits,
    {
        Length { bits }
    }

    /// The bit pattern.
    pub fn to_bits(&self) -> (r: u64)
        ensures
            r == self.bits,
    {
        self.bits
    }

    /// Decides [`Length::spec_is_live`].
    #[verifier::when_used_as_spec(spec_is_live)]
    pub fn is_live(&self) -> (r: bool)
        ensures
            r == self.spec_is_live(),
    {
        let magnitude: u64 = self.bits % SIGN_BIT;
        magnitude / HIDDEN_BIT < EXPONENT_SPECIAL && (magnitude == 0 || self.bits < SIGN_BIT)
    }

    /// Computes [`Length::spec_significand`]; it is below `2^53`.
    pub fn significand(&self) -> (r: u64)
        ensures
            r == self.spec_significand(),
            r < 2 * HIDDEN_BIT,
    {
        let magnitude: u64 = self.bits % SIGN_BIT;
        let fraction: u64 = magnitude % HIDDEN_BIT;
        if magnitude / HIDDEN_BIT == 0 {
            fraction
        } else {
            fraction + HIDDEN_BIT
        }
    }

    /// Computes [`Length::spec_exponent`]; it lies between -1074 and 972.
    pub fn exponent(&self) -> (r: i32)
        ensures
            r == self.spec_exponent(),
            -1074 <= r <= 972,
    {
        let magnitude: u64 = self.bits % SIGN_BIT;
        let field: u64 = magnitude / HIDDEN_BIT;
        if field == 0 {
            -1074
        } else {
            field as i32 - 1075
        }
    }
}

/// `value == m * 2^e` over the rationals, stated without fractions.
pub open spec fn scaled_eq(value: nat, m: nat, e: int) -> bool {
    if e >= 0 {
        value == m * pow2(e as nat)
    } else {
        value * pow2((-e) as nat) == m
    }
}

/// `2^64` and `2^128`, the bounds of the machine integers used below.
proof fn lemma_pow2_limits()
    ensures
        pow2(64) == 0x1_0000_0000_0000_0000,
        pow2(128) == 0x1_0000_0000_0000_0000_0000_0000_0000_0000,
{
    lemma2_to64();
    lemma_pow2_adds(64, 64);
}

/// `2^k` as a machine integer.
fn pow2_u128(k: u32) -> (r: u128)
    requires
        k < 128,
    ensures
        r == pow2(k as nat),
{
    let mut r: u128 = 1;
    let mut i: u32 = 0;
    proof {
        lemma2_to64();
    }
    while i < k
        invariant
            i <= k < 128,
            r == pow2(i as nat),
        decreases k - i,
    {
        proof {
            lemma_pow2_unfold((i + 1) as nat);
            lemma_pow2_limits();
            lemma_pow2_strictly_increases((i + 1) as nat, 128);
        }
        r = r * 2;
        i = i + 1;
    }
    r
}

/// Decides [`scaled_eq`] on machine integers.
fn is_scaled(value: u64, m: u128, e: i32) -> (r: bool)
    requires
        -4096 < e < 4096,
    ensures
        r == scaled_eq(value as nat, m as nat, e as int),
{
    proof {
        lemma_pow2_limits();
    }
    if e >= 0 {
        let ghost p = pow2(e as nat);
        proof {
            lemma_pow2_pos(e as nat);
        }
        if m == 0 {
            assert(m * p == 0) by (nonlinear_arith)
                requires
                    m == 0,
            ;
            value == 0
        } else if e >= 64 || m > u64::MAX as u128 {
            proof {
                if e > 64 {
                    lemma_pow2_strictly_increases(64, e as nat);
                }
                assert(m * p > value) by (nonlinear_arith)
                    requires
                        m >= 1,
                        p >= 1,
                        m > value || p > value,
                ;
            }
            false
        } else {
            let q: u128 = pow2_u128(e as u32);
            proof {
                lemma_pow2_strictly_increases(e as nat, 64);
                assert(m * q < 0x1_0000_0000_0000_0000_0000_0000_0000_0000) by (nonlinear_arith)
                    requires
                        m < 0x1_0000_0000_0000_0000,
                        q < 0x1_0000_0000_0000_0000,
                ;
            }
            m * q == value as u128
        }
    } else {
        let k: u32 = (-e) as u32;
        let ghost p = pow2(k as nat);
        proof {
            lemma_pow2_pos(k as nat);
        }
        if k >= 128 {
            proof {
                if k > 128 {
                    lemma_pow2_strictly_increases(128, k as nat);
                }
                assert(value >= 1 ==> value * p > m) by (nonlinear_arith)
                    requires
                        p > m,
                ;
                assert(value == 0 ==> value * p == 0) by (nonlinear_arith);
            }
            value == 0 && m == 0
        } else {
            let q: u128 = pow2_u128(k);
            proof {
                lemma_fundamental_div_mod(m as int, q as int);
                if value * q == m {
                    lemma_mod_multiples_basic(value as int, q as int);
                    lemma_div_multiples_vanish(value as int, q as int);
                    assert(q * value == value * q) by (nonlinear_arith);
                }
                if m % q == 0 && m / q == value {
                    assert(q * (m / q) == value * q) by (nonlinear_arith)
                        requires
                            m / q == value,
                    ;
                }
            }
            m % q == 0 && m / q == value as u128
        }
    }
}

/// Logical size of a window: a width and a height.
#[derive(Clone, Copy, Debug, PartialEq, Eq, Structural)]
pub struct Size {
    pub width: Length,
    pub height: Length,
}

impl Size {
    /// Both dimensions are finite and not below zero, as they must be once a
    /// window exists.
    pub open spec fn spec_is_live(&self) -> bool {
        self.width.spec_is_live() && self.height.spec_is_live()
    }

    /// `len` is exactly `width * height * bytes_per_pixel`, for a live size.
    ///
    /// The product of two binary64 values is `m * 2^e` with `m` the product of
    /// the significands and `e` the sum of the exponents.
    pub open spec fn spec_has_byte_length(&self, bytes_per_pixel: nat, len: nat) -> bool {
        &&& self.spec_is_live()
        &&& scaled_eq(
            len,
            self.width.spec_significand() * self.height.spec_significand() * bytes_per_pixel,
            self.width.spec_exponent() + self.height.spec_exponent(),
        )
    }

    /// Pairs a width with a height.
    pub fn new(width: Length, height: Length) -> (r: Size)
        ensures
            r.width == width,
            r.height == height,
    {
        Size { width, height }
    }

    /// Decides [`Size::spec_is_live`].
    #[verifier::when_used_as_spec(spec_is_live)]
    pub fn is_live(&self) -> (r: bool)
        ensures
            r == self.spec_is_live(),
    {
        self.width.is_live() && self.height.is_live()
    }

    /// Decides [`Size::spec_has_byte_length`] without rounding.
    pub fn has_byte_length(&self, bytes_per_pixel: u8, len: usize) -> (r: bool)
        ensures
            r == self.spec_has_byte_length(bytes_per_pixel as nat, len as nat),
    {
        if !self.is_live() {
            return false;
        }
        let w: u64 = self.width.significand();
        let h: u64 = self.height.significand();
        let e: i32 = self.width.exponent() + self.height.exponent();
        assert(w * h * bytes_per_pixel < 0x1_0000_0000_0000_0000_0000_0000_0000_0000)
            by (nonlinear_arith)
            requires
                w < 0x20_0000_0000_0000,
                h < 0x20_0000_0000_0000,
                bytes_per_pixel < 0x100,
        ;
        assert(w * h < 0x1_0000_0000_0000_0000_0000_0000_0000_0000) by (nonlinear_arith)
            requires
                w < 0x20_0000_0000_0000,
                h < 0x20_0000_0000_0000,
        ;
        let m: u128 = (w as u128) * (h as u128) * (bytes_per_pixel as u128);
        is_scaled(len as u64, m, e)
    }
}

/// `2^max(e, 0)`: the factor by which `2^e` multiplies.
spec fn pow2_up(e: int) -> nat {
    if e >= 0 {
        pow2(e as nat)
    } else {
        1
    }
}

/// `2^max(-e, 0)`: the factor by which `2^e` divides.
spec fn pow2_down(e: int) -> nat {
    if e >= 0 {
        1
    } else {
        pow2((-e) as nat)
    }
}

/// [`scaled_eq`] with both factors written out.
proof fn lemma_scaled_eq_factors(value: nat, m: nat, e: int)
    ensures
        scaled_eq(value, m, e) <==> value * pow2_down(e) == m * pow2_up(e),
        pow2_up(e) > 0,
        pow2_down(e) > 0,
{
    if e >= 0 {
        lemma_pow2_pos(e as nat);
    } else {
        lemma_pow2_pos((-e) as nat);
    }
    assert(value * 1 == value) by (nonlinear_arith);
    assert(m * 1 == m) by (nonlinear_arith);
}

/// `2^(a + b)` is `2^a * 2^b`, with the factors of [`pow2_up`] and
/// [`pow2_down`] cross-multiplied.
proof fn lemma_pow2_sum_factors(a: int, b: int)
    ensures
        pow2_up(a + b) * (pow2_down(a) * pow2_down(b)) == pow2_down(a + b) * (pow2_up(a) * pow2_up(
            b,
        )),
{
    let up = |x: int| -> nat { if x >= 0 { x as nat } else { 0 } };
    let down = |x: int| -> nat { if x >= 0 { 0 } else { (-x) as nat } };
    lemma2_to64();
    lemma_pow2_adds(down(a), down(b));
    lemma_pow2_adds(up(a + b), down(a) + down(b));
    lemma_pow2_adds(up(a), up(b));
    lemma_pow2_adds(down(a + b), up(a) + up(b));
    assert(up(a + b) + (down(a) + down(b)) == down(a + b) + (up(a) + up(b)));
}

/// The algebra behind [`Size::lemma_integral_byte_length`].
proof fn lemma_cross_multiply(
    len: nat,
    w: nat,
    h: nat,
    c: nat,
    mw: nat,
    mh: nat,
    uw: nat,
    dw: nat,
    uh: nat,
    dh: nat,
    u: nat,
    d: nat,
)
    requires
        w * dw == mw * uw,
        h * dh == mh * uh,
        u * (dw * dh) == d * (uw * uh),
        dw > 0,
        dh > 0,
        d > 0,
    ensures
        len * d == (mw * mh * c) * u <==> len == w * h * c,
{
    let k = dw * dh;
    assert(k > 0) by (nonlinear_arith)
        requires
            k == dw * dh,
            dw > 0,
            dh > 0,
    ;
    // Both sides of the left equation, multiplied by k.
    let m2 = mw * mh;
    let u2 = uw * uh;
    let wh = w * h;
    assert(m2 * u2 == (mw * uw) * (mh * uh)) by (nonlinear_arith)
        requires
            m2 == mw * mh,
            u2 == uw * uh,
    ;
    assert((w * dw) * (h * dh) == wh * k) by (nonlinear_arith)
        requires
            wh == w * h,
            k == dw * dh,
    ;
    assert(((m2 * c) * u) * k == (m2 * c) * (u * k)) by (nonlinear_arith);
    assert((m2 * c) * (d * u2) == (c * d) * (m2 * u2)) by (nonlinear_arith);
    assert((c * d) * (wh * k) == (wh * c) * d * k) by (nonlinear_arith);
    assert(((mw * mh * c) * u) * k == (w * h * c) * d * k);
    assert((len * d) * k == len * (d * k)) by (nonlinear_arith);
    assert((w * h * c) * d * k == (w * h * c) * (d * k)) by (nonlinear_arith);
    let dk = d * k;
    assert(dk > 0) by (nonlinear_arith)
        requires
            dk == d * k,
            d > 0,
            k > 0,
    ;
    let lhs = len * d;
    let rhs = (mw * mh * c) * u;
    let whc = w * h * c;
    if lhs == rhs {
        assert(len * dk == whc * dk);
        assert(len == whc) by (nonlinear_arith)
            requires
                len * dk == whc * dk,
                dk > 0,
        ;
    }
    if len == whc {
        assert(lhs * k == rhs * k);
        assert(lhs == rhs) by (nonlinear_arith)
            requires
                lhs * k == rhs * k,
                k > 0,
        ;
    }
}

/// The default patterns stand for 800 and 600.
pub proof fn lemma_default_dimensions()
    ensures
        (Length { bits: DEFAULT_WIDTH_BITS }).denotes(800),
        (Length { bits: DEFAULT_HEIGHT_BITS }).denotes(600),
{
    lemma2_to64_rest();
    let w = Length { bits: DEFAULT_WIDTH_BITS };
    let h = Length { bits: DEFAULT_HEIGHT_BITS };
    assert(w.exponent_field() == 0x408);
    assert(w.spec_significand() == 0x19_0000_0000_0000);
    assert(h.exponent_field() == 0x408);
    assert(h.spec_significand() == 0x12_c000_0000_0000);
}

impl Size {
    /// Where the width stands for the whole number `w` and the height for `h`,
    /// the byte length of the size is `w * h * bytes_per_pixel` and no other.
    pub proof fn lemma_integral_byte_length(&self, w: nat, h: nat, bytes_per_pixel: nat, len: nat)
        requires
            self.width.denotes(w),
            self.height.denotes(h),
        ensures
            self.spec_has_byte_length(bytes_per_pixel, len) <==> len == w * h * bytes_per_pixel,
    {
        let mw = self.width.spec_significand();
        let mh = self.height.spec_significand();
        let ew = self.width.spec_exponent();
        let eh = self.height.spec_exponent();
        lemma_scaled_eq_factors(w, mw, ew);
        lemma_scaled_eq_factors(h, mh, eh);
        lemma_scaled_eq_factors(len, mw * mh * bytes_per_pixel, ew + eh);
        lemma_pow2_sum_factors(ew, eh);
        lemma_cross_multiply(
            len,
            w,
            h,
            bytes_per_pixel,
            mw,
            mh,
            pow2_up(ew),
            pow2_down(ew),
            pow2_up(eh),
            pow2_down(eh),
            pow2_up(ew + eh),
            pow2_down(ew + eh),
        );
    }
}

} // verus!
