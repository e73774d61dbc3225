//! Fixed-point real numbers: the numeric ground the whole tracer stands on.
//!
//! A `Scalar` holds `raw`, a signed 64-bit count of 2^-32 units, so the value
//! it denotes is `raw / 2^32`.  Arithmetic is exact where the mathematical
//! result is representable; multiplication and division round toward zero and
//! every operation saturates at the ends of the `i64` range instead of
//! wrapping.  The spec functions in this module state each operation's result
//! as a function on the raw integers, and every executable method proves that
//! it returns exactly that.

use vstd::prelude::*;

verus! {

/// Number of raw units in one whole unit: 2^32.
pub const SCALE: i64 = 4294967296;

const SCALE_U128: u128 = 4294967296;

/// The self-intersection guard distance, about one hundred-thousandth of a
/// unit, in raw units.
pub const EPSILON_RAW: i64 = 42950;

/// A real number in 32.32 fixed point: the value denoted is `raw / 2^32`.
#[derive(Clone, Copy, Debug, PartialEq, Eq, Structural)]
pub struct Scalar {
    pub raw: i64,
}

/// Clamp a mathematical integer into the `i64` range.
pub open spec fn sat(v: int) -> int {
    if v < i64::MIN as int {
        i64::MIN as int
    } else if v > i64::MAX as int {
        i64::MAX as int
    } else {
        v
    }
}

/// The magnitude of an integer.
pub open spec fn mag(a: int) -> int {
    if a < 0 {
        -a
    } else {
        a
    }
}

/// Quotient of `p` by `d` rounded toward zero, for `d != 0`: the magnitudes
/// are divided and the usual sign rule is applied.
pub open spec fn div_to_zero(p: int, d: int) -> int {
    if (p < 0) == (d < 0) {
        mag(p) / mag(d)
    } else {
        -(mag(p) / mag(d))
    }
}

pub open spec fn spec_add(a: int, b: int) -> int {
    sat(a + b)
}

pub open spec fn spec_sub(a: int, b: int) -> int {
    sat(a - b)
}

pub open spec fn spec_neg(a: int) -> int {
    sat(-a)
}

pub open spec fn spec_abs(a: int) -> int {
    sat(mag(a))
}

pub open spec fn spec_mul(a: int, b: int) -> int {
    sat(div_to_zero(a * b, SCALE as int))
}

pub open spec fn spec_div(a: int, b: int) -> int {
    sat(div_to_zero(a * (SCALE as int), b))
}

/// `r` is the integer square root of `n`.
pub open spec fn is_isqrt(n: int, r: int) -> bool {
    0 <= r && r * r <= n && n < (r + 1) * (r + 1)
}

pub open spec fn spec_isqrt(n: int) -> int {
    choose|r: int| is_isqrt(n, r)
}

/// The square root of a non-negative scalar, rounded down to a raw unit.
pub open spec fn spec_sqrt(a: int) -> int {
    spec_isqrt(a * (SCALE as int))
}

/// The largest whole multiple of `SCALE` at or below `a`.
pub open spec fn spec_floor(a: int) -> int {
    (a / (SCALE as int)) * (SCALE as int)
}

/// The integer at or below the value `a` denotes.
pub open spec fn spec_floor_int(a: int) -> int {
    a / (SCALE as int)
}

/// `b` raised to the `n`th power, one rounded multiplication per step.
pub open spec fn spec_pow(b: int, n: nat) -> int
    decreases n,
{
    if n == 0 {
        SCALE as int
    } else {
        spec_mul(b, spec_pow(b, (n - 1) as nat))
    }
}

/// The scalar whose raw value is `v`, clamped into the `i64` range.
pub open spec fn to_scalar(v: int) -> Scalar {
    Scalar { raw: sat(v) as i64 }
}

pub open spec fn s_zero() -> Scalar {
    Scalar { raw: 0 }
}

pub open spec fn s_one() -> Scalar {
    Scalar { raw: SCALE }
}

pub open spec fn s_add(a: Scalar, b: Scalar) -> Scalar {
    to_scalar(spec_add(a.raw as int, b.raw as int))
}

pub open spec fn s_sub(a: Scalar, b: Scalar) -> Scalar {
    to_scalar(spec_sub(a.raw as int, b.raw as int))
}

pub open spec fn s_neg(a: Scalar) -> Scalar {
    to_scalar(spec_neg(a.raw as int))
}

pub open spec fn s_abs(a: Scalar) -> Scalar {
    to_scalar(spec_abs(a.raw as int))
}

pub open spec fn s_mul(a: Scalar, b: Scalar) -> Scalar {
    to_scalar(spec_mul(a.raw as int, b.raw as int))
}

pub open spec fn s_div(a: Scalar, b: Scalar) -> Scalar {
    to_scalar(spec_div(a.raw as int, b.raw as int))
}

pub open spec fn s_sqrt(a: Scalar) -> Scalar {
    to_scalar(spec_sqrt(a.raw as int))
}

pub open spec fn s_floor(a: Scalar) -> Scalar {
    to_scalar(spec_floor(a.raw as int))
}

pub open spec fn s_fract(a: Scalar) -> Scalar {
    to_scalar((a.raw as int) % (SCALE as int))
}

pub open spec fn s_pow(b: Scalar, n: nat) -> Scalar {
    to_scalar(spec_pow(b.raw as int, n))
}

/// At most one integer is the integer square root of `n`.
pub proof fn lemma_isqrt_unique(n: int, r1: int, r2: int)
    requires
        is_isqrt(n, r1),
        is_isqrt(n, r2),
    ensures
        r1 == r2,
{
    if r1 < r2 {
        assert((r1 + 1) * (r1 + 1) <= r2 * r2) by (nonlinear_arith)
            requires
                0 <= r1 + 1 <= r2,
        ;
    }
    if r2 < r1 {
        assert((r2 + 1) * (r2 + 1) <= r1 * r1) by (nonlinear_arith)
            requires
                0 <= r2 + 1 <= r1,
        ;
    }
}

/// Multiplying by one returns the value unchanged.
pub proof fn lemma_mul_one(a: int)
    requires
        i64::MIN <= a <= i64::MAX,
    ensures
        spec_mul(a, SCALE as int) == a,
        spec_mul(SCALE as int, a) == a,
{
    let s = SCALE as int;
    assert(mag(a * s) == mag(a) * s) by (nonlinear_arith)
        requires
            s > 0,
    ;
    assert(a * s == s * a) by (nonlinear_arith);
    vstd::arithmetic::div_mod::lemma_div_multiples_vanish(mag(a), s);
    assert(mag(a) * s == s * mag(a)) by (nonlinear_arith);
    assert((a * s < 0) == (a < 0)) by (nonlinear_arith)
        requires
            s > 0,
    ;
}

/// Multiplying by zero returns zero.
pub proof fn lemma_mul_zero(a: int)
    ensures
        spec_mul(a, 0) == 0,
        spec_mul(0, a) == 0,
{
    assert(a * 0 == 0) by (nonlinear_arith);
    assert(0 * a == 0) by (nonlinear_arith);
    vstd::arithmetic::div_mod::lemma_div_of0(SCALE as int);
}

/// A whole-number scalar times a non-zero scalar is non-zero.
pub proof fn lemma_mul_int_nonzero(k: int, a: int)
    requires
        1 <= k,
        a != 0,
    ensures
        spec_mul(k * (SCALE as int), a) != 0,
{
    let s = SCALE as int;
    assert(mag((k * s) * a) == (k * mag(a)) * s) by (nonlinear_arith)
        requires
            k >= 1,
            s > 0,
            a != 0,
    ;
    assert((k * mag(a)) * s == s * (k * mag(a))) by (nonlinear_arith);
    vstd::arithmetic::div_mod::lemma_div_multiples_vanish(k * mag(a), s);
    assert(k * mag(a) >= 1) by (nonlinear_arith)
        requires
            k >= 1,
            mag(a) >= 1,
    ;
}

/// Multiplying by one returns the value unchanged, for every raw value.
pub proof fn lemma_mul_one_forall()
    ensures
        forall|a: int| i64::MIN <= a <= i64::MAX ==> #[trigger] spec_mul(a, SCALE as int) == a,
        forall|a: int| i64::MIN <= a <= i64::MAX ==> #[trigger] spec_mul(SCALE as int, a) == a,
{
    assert forall|a: int| i64::MIN <= a <= i64::MAX implies #[trigger] spec_mul(a, SCALE as int)
        == a by {
        lemma_mul_one(a);
    }
    assert forall|a: int| i64::MIN <= a <= i64::MAX implies #[trigger] spec_mul(SCALE as int, a)
        == a by {
        lemma_mul_one(a);
    }
}

/// Multiplying by zero returns zero, for every raw value.
pub proof fn lemma_mul_zero_forall()
    ensures
        forall|a: int| #[trigger] spec_mul(a, 0) == 0,
        forall|a: int| #[trigger] spec_mul(0, a) == 0,
{
    assert forall|a: int| #[trigger] spec_mul(a, 0) == 0 by {
        lemma_mul_zero(a);
    }
    assert forall|a: int| #[trigger] spec_mul(0, a) == 0 by {
        lemma_mul_zero(a);
    }
}

impl Scalar {
    pub fn zero() -> (r: Scalar)
        ensures
            r.raw == 0,
    {
        Scalar { raw: 0 }
    }

    pub fn one() -> (r: Scalar)
        ensures
            r.raw == SCALE,
    {
        Scalar { raw: SCALE }
    }

    /// The scalar denoting the integer `i`.
    pub fn from_int(i: i32) -> (r: Scalar)
        ensures
            r.raw == i * (SCALE as int),
    {
        Scalar { raw: (i as i64) * SCALE }
    }

    pub fn from_raw(raw: i64) -> (r: Scalar)
        ensures
            r.raw == raw,
    {
        Scalar { raw }
    }

    pub fn add(self, o: Scalar) -> (r: Scalar)
        ensures
            r.raw == spec_add(self.raw as int, o.raw as int),
            r == s_add(self, o),
    {
        clip(self.raw as i128 + o.raw as i128)
    }

    pub fn sub(self, o: Scalar) -> (r: Scalar)
        ensures
            r.raw == spec_sub(self.raw as int, o.raw as int),
            r == s_sub(self, o),
    {
        clip(self.raw as i128 - o.raw as i128)
    }

    pub fn neg(self) -> (r: Scalar)
        ensures
            r.raw == spec_neg(self.raw as int),
            r == s_neg(self),
    {
        clip(-(self.raw as i128))
    }

    pub fn abs(self) -> (r: Scalar)
        ensures
            r.raw == spec_abs(self.raw as int),
            r == s_abs(self),
    {
        if self.raw < 0 {
            clip(-(self.raw as i128))
        } else {
            self
        }
    }

    pub fn mul(self, o: Scalar) -> (r: Scalar)
        ensures
            r.raw == spec_mul(self.raw as int, o.raw as int),
            r == s_mul(self, o),
    {
        let a = self.raw;
        let b = o.raw;
        let ma = magnitude_of(a);
        let mb = magnitude_of(b);
        assert(ma * mb <= 0x4000_0000_0000_0000_0000_0000_0000_0000u128) by (nonlinear_arith)
            requires
                ma <= 0x8000_0000_0000_0000u128,
                mb <= 0x8000_0000_0000_0000u128,
        ;
        let q = (ma * mb) / SCALE_U128;
        proof {
            vstd::arithmetic::div_mod::lemma_div_nonincreasing((ma * mb) as int, SCALE as int);
            assert(mag((a as int) * (b as int)) == ma * mb) by (nonlinear_arith)
                requires
                    ma == mag(a as int),
                    mb == mag(b as int),
            ;
            if (a as int) * (b as int) == 0 {
                vstd::arithmetic::div_mod::lemma_div_of0(SCALE as int);
            }
        }
        if (a < 0) != (b < 0) {
            proof {
                assert((a as int) * (b as int) <= 0) by (nonlinear_arith)
                    requires
                        (a < 0) != (b < 0),
                ;
            }
            clip(-(q as i128))
        } else {
            proof {
                assert((a as int) * (b as int) >= 0) by (nonlinear_arith)
                    requires
                        (a < 0) == (b < 0),
                ;
            }
            clip(q as i128)
        }
    }

    /// Division; the divisor must be non-zero.
    pub fn div(self, o: Scalar) -> (r: Scalar)
        requires
            o.raw != 0,
        ensures
            r.raw == spec_div(self.raw as int, o.raw as int),
            r == s_div(self, o),
    {
        let a = self.raw;
        let b = o.raw;
        let ma = magnitude_of(a);
        let mb = magnitude_of(b);
        assert(ma * SCALE_U128 <= 0x8000_0000_0000_0000_0000_0000u128) by (nonlinear_arith)
            requires
                ma <= 0x8000_0000_0000_0000u128,
        ;
        let num = ma * SCALE_U128;
        let q = num / mb;
        proof {
            vstd::arithmetic::div_mod::lemma_div_nonincreasing(num as int, mb as int);
            assert(mag((a as int) * (SCALE as int)) == ma * (SCALE as int)) by (nonlinear_arith)
                requires
                    ma == mag(a as int),
                    SCALE > 0,
            ;
            assert(((a as int) * (SCALE as int) < 0) == ((a as int) < 0)) by (nonlinear_arith)
                requires
                    SCALE > 0,
            ;
            if (a as int) * (SCALE as int) == 0 {
                vstd::arithmetic::div_mod::lemma_div_of0(mb as int);
            }
        }
        if (a < 0) != (b < 0) {
            clip(-(q as i128))
        } else {
            clip(q as i128)
        }
    }

    /// The square root, rounded down to a raw unit; the argument must not be
    /// negative.
    pub fn sqrt(self) -> (r: Scalar)
        requires
            self.raw >= 0,
        ensures
            r.raw == spec_sqrt(self.raw as int),
            r == s_sqrt(self),
            r.raw >= 0,
    {
        assert((self.raw as u128) * SCALE_U128 <= 0x8000_0000_0000_0000_0000_0000u128)
            by (nonlinear_arith)
            requires
                self.raw as u128 <= 0x8000_0000_0000_0000u128,
        ;
        let n = (self.raw as u128) * SCALE_U128;
        let r0 = isqrt_u128(n);
        proof {
            let m = n as int;
            assert(is_isqrt(m, r0 as int));
            assert(is_isqrt(m, spec_isqrt(m)));
            lemma_isqrt_unique(m, r0 as int, spec_isqrt(m));
        }
        Scalar { raw: r0 as i64 }
    }

    /// The integer at or below this value, as a scalar.
    pub fn floor(self) -> (r: Scalar)
        ensures
            r.raw == spec_floor(self.raw as int),
            r == s_floor(self),
    {
        let k = self.floor_int();
        proof {
            vstd::arithmetic::div_mod::lemma_div_is_ordered(
                i64::MIN as int,
                self.raw as int,
                SCALE as int,
            );
            vstd::arithmetic::div_mod::lemma_div_is_ordered(
                self.raw as int,
                i64::MAX as int,
                SCALE as int,
            );
        }
        Scalar { raw: k * SCALE }
    }

    /// The integer at or below this value.
    pub fn floor_int(self) -> (k: i64)
        ensures
            k == spec_floor_int(self.raw as int),
            -0x8000_0000i64 <= k <= 0x7FFF_FFFFi64,
    {
        proof {
            vstd::arithmetic::div_mod::lemma_div_is_ordered(
                i64::MIN as int,
                self.raw as int,
                SCALE as int,
            );
            vstd::arithmetic::div_mod::lemma_div_is_ordered(
                self.raw as int,
                i64::MAX as int,
                SCALE as int,
            );
        }
        if self.raw >= 0 {
            let k = ((self.raw as u64) / 4294967296u64) as i64;
            k
        } else {
            let m = (-(self.raw as i128)) as u128;
            let q = m / SCALE_U128;
            let rem = m % SCALE_U128;
            proof {
                vstd::arithmetic::div_mod::lemma_fundamental_div_mod(m as int, SCALE as int);
                vstd::arithmetic::div_mod::lemma_mod_division_less_than_divisor(
                    m as int,
                    SCALE as int,
                );
                let a = self.raw as int;
                let s = SCALE as int;
                if rem == 0 {
                    assert(a == (-(q as int)) * s + 0) by (nonlinear_arith)
                        requires
                            a == -(s * (q as int) + 0),
                    ;
                    vstd::arithmetic::div_mod::lemma_fundamental_div_mod_converse_div(
                        a,
                        s,
                        -(q as int),
                        0,
                    );
                } else {
                    assert(a == (-(q as int) - 1) * s + (s - rem)) by (nonlinear_arith)
                        requires
                            a == -(s * (q as int) + rem),
                    ;
                    vstd::arithmetic::div_mod::lemma_fundamental_div_mod_converse_div(
                        a,
                        s,
                        -(q as int) - 1,
                        s - rem,
                    );
                }
            }
            if rem == 0 {
                (-(q as i128)) as i64
            } else {
                ((-(q as i128)) - 1) as i64
            }
        }
    }

    /// The fractional part: this value minus its floor, in `[0, 1)`.
    pub fn fract(self) -> (r: Scalar)
        ensures
            r.raw == (self.raw as int) % (SCALE as int),
            r == s_fract(self),
    {
        let f = self.floor();
        proof {
            vstd::arithmetic::div_mod::lemma_fundamental_div_mod(self.raw as int, SCALE as int);
            vstd::arithmetic::div_mod::lemma_mod_division_less_than_divisor(
                self.raw as int,
                SCALE as int,
            );
            assert((SCALE as int) * ((self.raw as int) / (SCALE as int)) == spec_floor(
                self.raw as int,
            )) by (nonlinear_arith);
        }
        Scalar { raw: self.raw - f.raw }
    }

    /// This value raised to the `n`th power, one rounded multiplication per
    /// step.
    pub fn powi(self, n: u32) -> (r: Scalar)
        ensures
            r.raw == spec_pow(self.raw as int, n as nat),
            r == s_pow(self, n as nat),
    {
        let mut acc = Scalar::one();
        let mut i: u32 = 0;
        while i < n
            invariant
                i <= n,
                acc.raw == spec_pow(self.raw as int, i as nat),
            decreases n - i,
    {
            acc = self.mul(acc);
            i = i + 1;
        }
        acc
    }
}

/// Whether the integer `k` is even.
pub fn is_even_int(k: i64) -> (r: bool)
    ensures
        r == ((k as int) % 2 == 0),
{
    let j = ((k as i128) + 0x8000_0000_0000_0000i128) as u128;
    proof {
        vstd::arithmetic::div_mod::lemma_mod_multiples_vanish(
            0x4000_0000_0000_0000int,
            k as int,
            2int,
        );
        assert(2int * 0x4000_0000_0000_0000int + (k as int) == j as int);
    }
    (j % 2u128) == 0
}

/// Binary search for the integer square root of `n`.
fn isqrt_u128(n: u128) -> (r: u128)
    requires
        n < 0x1_0000_0000_0000_0000_0000_0000u128,
    ensures
        is_isqrt(n as int, r as int),
        r < 0x1_0000_0000_0000u128,
{
    let mut lo: u128 = 0;
    let mut hi: u128 = 0x1_0000_0000_0000u128;
    assert((0x1_0000_0000_0000u128 as int) * (0x1_0000_0000_0000u128 as int)
        == 0x1_0000_0000_0000_0000_0000_0000int) by (nonlinear_arith);
    while lo + 1 < hi
        invariant
            lo < hi,
            hi <= 0x1_0000_0000_0000u128,
            (lo as int) * (lo as int) <= n as int,
            (n as int) < (hi as int) * (hi as int),
        decreases hi - lo,
    {
        let mid = lo + (hi - lo) / 2;
        assert(lo < mid < hi);
        assert((mid as int) * (mid as int) <= 0x1_0000_0000_0000_0000_0000_0000int)
            by (nonlinear_arith)
            requires
                mid <= 0x1_0000_0000_0000u128,
        ;
        if mid * mid <= n {
            lo = mid;
        } else {
            hi = mid;
        }
    }
    lo
}

/// Saturate a 128-bit intermediate into a scalar.
fn clip(v: i128) -> (r: Scalar)
    ensures
        r.raw == sat(v as int),
{
    if v > i64::MAX as i128 {
        Scalar { raw: i64::MAX }
    } else if v < i64::MIN as i128 {
        Scalar { raw: i64::MIN }
    } else {
        Scalar { raw: v as i64 }
    }
}

/// The magnitude of a raw value as an unsigned 128-bit integer.
fn magnitude_of(a: i64) -> (m: u128)
    ensures
        m == mag(a as int),
        m <= 0x8000_0000_0000_0000u128,
{
    if a < 0 {
        (-(a as i128)) as u128
    } else {
        a as u128
    }
}

} // verus!
