//! Q16.16 fixed-point scalars.
//!
//! A `Fx` holds a signed 64-bit raw value; the number it denotes is
//! `raw / 65536`. All contracts are stated over the raw value, an `int`,
//! so every operation has an exact mathematical description. Results are
//! clamped into `[-RAW_BOUND, RAW_BOUND]`, which makes every operation
//! total: no operation panics and none overflows.

use vstd::prelude::*;

verus! {

/// Raw units per 1.0: the scale of the Q16.16 representation.
pub const FX_SCALE: i64 = 65536;

/// Largest raw magnitude a well-formed scalar may carry (2^46).
pub const FX_RAW_BOUND: i64 = 0x4000_0000_0000;

/// A fixed-point scalar; the denoted number is `raw / 65536`.
#[derive(Clone, Copy, Debug, PartialEq, Eq, Structural)]
pub struct Fx {
    pub raw: i64,
}

/// Clamps a mathematical integer into the well-formed raw range.
pub open spec fn fx_clamp(x: int) -> int {
    if x < -FX_RAW_BOUND {
        -FX_RAW_BOUND as int
    } else if x > FX_RAW_BOUND {
        FX_RAW_BOUND as int
    } else {
        x
    }
}

/// Division that truncates toward zero, the behaviour of the executable
/// routines below (spec-level `/` is Euclidean, which differs for
/// negative operands).
pub open spec fn div_trunc(a: int, b: int) -> int {
    let am = if a < 0 { -a } else { a };
    let bm = if b < 0 { -b } else { b };
    let q = am / bm;
    if (a < 0) != (b < 0) {
        -q
    } else {
        q
    }
}

/// The raw value of the clamped product of two raw values.
pub open spec fn fx_mul_raw(a: int, b: int) -> int {
    fx_clamp(div_trunc(a * b, FX_SCALE as int))
}

/// The raw value of the clamped quotient of two raw values. Division by
/// zero saturates to the bound with the sign of the dividend.
pub open spec fn fx_div_raw(a: int, b: int) -> int {
    if b == 0 {
        if a > 0 {
            FX_RAW_BOUND as int
        } else if a < 0 {
            -FX_RAW_BOUND as int
        } else {
            0
        }
    } else {
        fx_clamp(div_trunc(a * FX_SCALE, b))
    }
}

/// The integer square root: the largest `r` with `r * r <= n`, defined by
/// recursion so that it can serve as the denotation of the executable
/// binary search below.
pub open spec fn isqrt_spec(n: nat) -> nat
    decreases n,
{
    if n == 0 {
        0
    } else {
        let r = isqrt_spec((n - 1) as nat);
        if (r + 1) * (r + 1) <= n {
            r + 1
        } else {
            r
        }
    }
}

/// `isqrt_spec(n)` squares to at most `n`, and is the largest such number.
pub proof fn lemma_isqrt_spec_bounds(n: nat)
    ensures
        isqrt_spec(n) * isqrt_spec(n) <= n,
        n < (isqrt_spec(n) + 1) * (isqrt_spec(n) + 1),
    decreases n,
{
    let s = isqrt_spec(n);
    if n == 0 {
        assert(s == 0);
        assert(s * s == 0) by (nonlinear_arith)
            requires
                s == 0,
        ;
        assert(s * s <= n);
        assert(n < (s + 1) * (s + 1)) by (nonlinear_arith)
            requires
                s == 0,
                n == 0,
        ;
    } else {
        lemma_isqrt_spec_bounds((n - 1) as nat);
        let r = isqrt_spec((n - 1) as nat);
        assert(r * r <= n - 1 && n - 1 < (r + 1) * (r + 1));
        if (r + 1) * (r + 1) <= n {
            assert(s == r + 1);
            assert(n <= (r + 1) * (r + 1));
            assert((s + 1) * (s + 1) > s * s) by (nonlinear_arith);
            assert(s * s <= n && n < (s + 1) * (s + 1));
        } else {
            assert(s == r);
            assert(s * s <= n && n < (s + 1) * (s + 1));
        }
    }
}

/// Any `r` with `r^2 <= n < (r+1)^2` is the integer square root of `n`.
pub proof fn lemma_isqrt_unique(n: nat, r: nat)
    requires
        r * r <= n,
        n < (r + 1) * (r + 1),
    ensures
        r == isqrt_spec(n),
{
    lemma_isqrt_spec_bounds(n);
    let s = isqrt_spec(n);
    if r < s {
        assert((r + 1) * (r + 1) <= s * s) by (nonlinear_arith)
            requires
                r + 1 <= s,
        ;
    }
    if s < r {
        assert((s + 1) * (s + 1) <= r * r) by (nonlinear_arith)
            requires
                s + 1 <= r,
        ;
    }
}

/// The integer square root of a 64-bit value, by binary search.
pub fn isqrt_u64(n: u64) -> (r: u64)
    ensures
        r * r <= n < (r + 1) * (r + 1),
        r == isqrt_spec(n as nat),
{
    let mut lo: u64 = 0;
    let mut hi: u64 = 0x1_0000_0000;
    proof {
        assert(0x1_0000_0000i128 * 0x1_0000_0000i128 > n) by (nonlinear_arith)
            requires
                n <= 0xffff_ffff_ffff_ffff,
        ;
    }
    while lo + 1 < hi
        invariant
            lo < hi <= 0x1_0000_0000,
            lo * lo <= n,
            (hi as int) * (hi as int) > n,
        decreases hi - lo,
    {
        let mid: u64 = lo + (hi - lo) / 2;
        proof {
            assert((mid as int) * (mid as int) <= 0x1_0000_0000i128 * 0x1_0000_0000i128)
                by (nonlinear_arith)
                requires
                    0 <= mid <= 0x1_0000_0000,
            ;
        }
        let sq: u128 = (mid as u128) * (mid as u128);
        if sq <= n as u128 {
            lo = mid;
        } else {
            hi = mid;
        }
    }
    proof {
        lemma_isqrt_unique(n as nat, lo as nat);
    }
    lo
}

/// The raw value of the fixed-point square root of a raw value: zero for
/// non-positive inputs, else the integer square root of the raw value
/// rescaled into Q16.16.
pub open spec fn fx_sqrt_raw(a: int) -> int {
    if a <= 0 {
        0
    } else {
        isqrt_spec((a * FX_SCALE) as nat) as int
    }
}

/// The scalar whose raw value is `v`; meaningful for `v` within the
/// well-formed range, which every clamped result satisfies.
pub open spec fn fx_of(v: int) -> Fx {
    Fx { raw: v as i64 }
}

/// Denotation of `Fx::add`.
pub open spec fn fx_add(a: Fx, b: Fx) -> Fx {
    fx_of(fx_clamp(a.v() + b.v()))
}

/// Denotation of `Fx::sub`.
pub open spec fn fx_sub(a: Fx, b: Fx) -> Fx {
    fx_of(fx_clamp(a.v() - b.v()))
}

/// Denotation of `Fx::neg`.
pub open spec fn fx_neg(a: Fx) -> Fx {
    fx_of(-a.v())
}

/// Denotation of `Fx::mul`.
pub open spec fn fx_mul(a: Fx, b: Fx) -> Fx {
    fx_of(fx_mul_raw(a.v(), b.v()))
}

/// Denotation of `Fx::div`.
pub open spec fn fx_div(a: Fx, b: Fx) -> Fx {
    fx_of(fx_div_raw(a.v(), b.v()))
}

/// Denotation of `Fx::sqrt`.
pub open spec fn fx_sqrt(a: Fx) -> Fx {
    fx_of(fx_sqrt_raw(a.v()))
}

/// Denotation of `Fx::min`.
pub open spec fn fx_min(a: Fx, b: Fx) -> Fx {
    if a.v() <= b.v() {
        a
    } else {
        b
    }
}

/// Denotation of `Fx::max`.
pub open spec fn fx_max(a: Fx, b: Fx) -> Fx {
    if a.v() >= b.v() {
        a
    } else {
        b
    }
}

/// Denotation of `Fx::abs`.
pub open spec fn fx_abs(a: Fx) -> Fx {
    if a.v() >= 0 {
        a
    } else {
        fx_of(-a.v())
    }
}

/// The square root of a well-formed scalar is nonnegative and
/// well-formed.
pub proof fn lemma_fx_sqrt_props(a: Fx)
    requires
        a.wf(),
    ensures
        fx_sqrt(a).v() >= 0,
        fx_sqrt(a).wf(),
{
    if a.v() > 0 {
        let n = (a.v() * FX_SCALE) as nat;
        lemma_isqrt_spec_bounds(n);
        let s = isqrt_spec(n);
        assert(s <= 0x1_0000_0000) by (nonlinear_arith)
            requires
                s * s <= n,
                n <= 0x4000_0000_0000i128 * 65536,
        ;
    }
}

/// Truncating division is monotone in the numerator, for a positive
/// denominator.
pub proof fn lemma_div_trunc_monotone(a: int, b: int, d: int)
    requires
        a <= b,
        d > 0,
    ensures
        div_trunc(a, d) <= div_trunc(b, d),
{
    if a >= 0 {
        vstd::arithmetic::div_mod::lemma_div_is_ordered(a, b, d);
    } else if b < 0 {
        vstd::arithmetic::div_mod::lemma_div_is_ordered(-b, -a, d);
    } else {
        vstd::arithmetic::div_mod::lemma_div_is_ordered(0, -a, d);
        vstd::arithmetic::div_mod::lemma_div_is_ordered(0, b, d);
        assert(0int / d == 0) by {
            vstd::arithmetic::div_mod::lemma_basic_div(0int, d);
        }
    }
}

/// Fixed-point division by a positive scalar is monotone in the dividend.
pub proof fn lemma_fx_div_monotone(a: Fx, b: Fx, d: Fx)
    requires
        a.v() <= b.v(),
        d.v() > 0,
    ensures
        fx_div(a, d).v() <= fx_div(b, d).v(),
{
    assert(a.v() * FX_SCALE <= b.v() * FX_SCALE) by (nonlinear_arith)
        requires
            a.v() <= b.v(),
    ;
    lemma_div_trunc_monotone(a.v() * FX_SCALE, b.v() * FX_SCALE, d.v());
}

/// Scaling a truncated quotient back by the divisor stays at or below
/// the dividend: `mul(d, div(num, d)) <= num` for positive `num` and
/// `d`, clamping included. The slab tests rely on this: stepping to a
/// computed plane distance never overshoots the plane.
pub proof fn lemma_fx_mul_div_le(num: Fx, d: Fx)
    requires
        d.wf(),
        d.v() > 0,
        0 < num.v() <= FX_RAW_BOUND,
    ensures
        0 <= fx_mul(d, fx_div(num, d)).v() <= num.v(),
{
    let q = div_trunc(num.v() * FX_SCALE, d.v());
    vstd::arithmetic::div_mod::lemma_fundamental_div_mod(num.v() * FX_SCALE, d.v());
    assert(num.v() * FX_SCALE > 0) by (nonlinear_arith)
        requires
            num.v() > 0,
    ;
    assert(q == (num.v() * FX_SCALE) / d.v());
    assert(q >= 0) by {
        vstd::arithmetic::div_mod::lemma_div_is_ordered(0int, num.v() * FX_SCALE, d.v());
        vstd::arithmetic::div_mod::lemma_basic_div(0int, d.v());
    }
    assert(d.v() * q <= num.v() * FX_SCALE);
    let t = fx_div(num, d);
    assert(t.v() == fx_clamp(q));
    assert(0 <= t.v() <= q);
    assert(d.v() * t.v() <= d.v() * q) by (nonlinear_arith)
        requires
            t.v() <= q,
            d.v() > 0,
            0 <= t.v(),
    ;
    assert(d.v() * t.v() >= 0) by (nonlinear_arith)
        requires
            d.v() > 0,
            t.v() >= 0,
    ;
    let m = div_trunc(d.v() * t.v(), FX_SCALE as int);
    assert(m == (d.v() * t.v()) / (FX_SCALE as int));
    assert(m >= 0) by {
        vstd::arithmetic::div_mod::lemma_div_is_ordered(0int, d.v() * t.v(), FX_SCALE as int);
        vstd::arithmetic::div_mod::lemma_basic_div(0int, FX_SCALE as int);
    }
    assert(m <= (num.v() * FX_SCALE) / (FX_SCALE as int)) by {
        vstd::arithmetic::div_mod::lemma_div_is_ordered(
            d.v() * t.v(),
            num.v() * FX_SCALE,
            FX_SCALE as int,
        );
    }
    assert((num.v() * FX_SCALE) / (FX_SCALE as int) == num.v()) by {
        vstd::arithmetic::div_mod::lemma_div_multiples_vanish(num.v(), FX_SCALE as int);
        assert(num.v() * FX_SCALE == FX_SCALE as int * num.v()) by (nonlinear_arith);
    }
}

/// Truncating division of a nonnegative value by a positive one is
/// nonnegative.
pub proof fn lemma_div_trunc_nonneg(a: int, b: int)
    requires
        a >= 0,
        b > 0,
    ensures
        div_trunc(a, b) >= 0,
{
    vstd::arithmetic::div_mod::lemma_div_is_ordered(0int, a, b);
    vstd::arithmetic::div_mod::lemma_basic_div(0int, b);
}

/// A square is nonnegative, clamping and truncation included.
pub proof fn lemma_fx_square_nonneg(x: Fx)
    ensures
        fx_mul(x, x).v() >= 0,
{
    assert(x.v() * x.v() >= 0) by (nonlinear_arith);
    lemma_div_trunc_nonneg(x.v() * x.v(), FX_SCALE as int);
}

/// Negating one factor negates the product: the clamped, truncating
/// multiplication is odd in each argument.
pub proof fn lemma_fx_mul_neg(a: Fx, b: Fx)
    requires
        b.wf(),
    ensures
        fx_mul(a, fx_neg(b)) == fx_neg(fx_mul(a, b)),
{
    let p = a.v() * b.v();
    assert(a.v() * (fx_neg(b).v()) == -p) by (nonlinear_arith)
        requires
            fx_neg(b).v() == -b.v(),
            p == a.v() * b.v(),
    ;
    assert(div_trunc(-p, FX_SCALE as int) == -div_trunc(p, FX_SCALE as int));
}

/// A product with a zero factor is zero.
pub proof fn lemma_fx_mul_zero(a: Fx, b: Fx)
    requires
        a.v() == 0 || b.v() == 0,
    ensures
        fx_mul(a, b) == fx_of(0),
        fx_mul(a, b).v() == 0,
{
    assert(a.v() * b.v() == 0) by (nonlinear_arith)
        requires
            a.v() == 0 || b.v() == 0,
    ;
    assert(div_trunc(0, FX_SCALE as int) == 0);
}

impl Fx {
    /// The raw value as a mathematical integer: the denoted number times 65536.
    pub open spec fn v(self) -> int {
        self.raw as int
    }

    /// Well-formed: the raw value lies within the clamping bound.
    pub open spec fn wf(self) -> bool {
        -FX_RAW_BOUND <= self.raw <= FX_RAW_BOUND
    }

    /// The scalar 0.
    pub fn zero() -> (r: Fx)
        ensures
            r.v() == 0,
            r.wf(),
    {
        Fx { raw: 0 }
    }

    /// The scalar 1.
    pub fn one() -> (r: Fx)
        ensures
            r.v() == FX_SCALE,
            r.wf(),
    {
        Fx { raw: FX_SCALE }
    }

    /// Builds a scalar from a raw Q16.16 value, clamping it into range.
    pub fn from_raw(raw: i64) -> (r: Fx)
        ensures
            r.v() == fx_clamp(raw as int),
            r.wf(),
    {
        if raw < -FX_RAW_BOUND {
            Fx { raw: -FX_RAW_BOUND }
        } else if raw > FX_RAW_BOUND {
            Fx { raw: FX_RAW_BOUND }
        } else {
            Fx { raw }
        }
    }

    /// Builds the scalar denoting the integer `i`, clamped into range.
    pub fn from_int(i: i64) -> (r: Fx)
        ensures
            r.v() == fx_clamp(i as int * FX_SCALE),
            r.wf(),
    {
        if i > 0x2000_0000_0000_0000 / FX_SCALE {
            Fx { raw: FX_RAW_BOUND }
        } else if i < -0x2000_0000_0000_0000 / FX_SCALE {
            Fx { raw: -FX_RAW_BOUND }
        } else {
            Self::from_raw(i * FX_SCALE)
        }
    }

    /// Clamped addition.
    pub fn add(self, o: Fx) -> (r: Fx)
        requires
            self.wf(),
            o.wf(),
        ensures
            r == fx_add(self, o),
            r.wf(),
    {
        let s: i64 = self.raw + o.raw;
        Self::from_raw(s)
    }

    /// Clamped subtraction.
    pub fn sub(self, o: Fx) -> (r: Fx)
        requires
            self.wf(),
            o.wf(),
        ensures
            r == fx_sub(self, o),
            r.wf(),
    {
        let s: i64 = self.raw - o.raw;
        Self::from_raw(s)
    }

    /// Negation; exact, since the well-formed range is symmetric.
    pub fn neg(self) -> (r: Fx)
        requires
            self.wf(),
        ensures
            r == fx_neg(self),
            r.wf(),
    {
        Fx { raw: -self.raw }
    }

    /// Clamped multiplication, truncating the product toward zero.
    pub fn mul(self, o: Fx) -> (r: Fx)
        requires
            self.wf(),
            o.wf(),
        ensures
            r == fx_mul(self, o),
            r.wf(),
    {
        let a: i128 = self.raw as i128;
        let b: i128 = o.raw as i128;
        proof {
            assert(a * b <= 0x4000_0000_0000 * 0x4000_0000_0000
                && a * b >= -(0x4000_0000_0000 * 0x4000_0000_0000)) by (nonlinear_arith)
                requires
                    -0x4000_0000_0000 <= a <= 0x4000_0000_0000,
                    -0x4000_0000_0000 <= b <= 0x4000_0000_0000,
            ;
        }
        let p: i128 = a * b;
        let pm: u128 = if p < 0 {
            (-p) as u128
        } else {
            p as u128
        };
        let qm: u128 = pm / (FX_SCALE as u128);
        let q: i128 = if p < 0 {
            -(qm as i128)
        } else {
            qm as i128
        };
        proof {
            assert(q == div_trunc(self.v() * o.v(), FX_SCALE as int));
        }
        Self::clamp_i128(q)
    }

    /// Clamped division, truncating toward zero; division by zero
    /// saturates to the bound carrying the dividend's sign.
    pub fn div(self, o: Fx) -> (r: Fx)
        requires
            self.wf(),
            o.wf(),
        ensures
            r == fx_div(self, o),
            r.wf(),
    {
        if o.raw == 0 {
            if self.raw > 0 {
                Fx { raw: FX_RAW_BOUND }
            } else if self.raw < 0 {
                Fx { raw: -FX_RAW_BOUND }
            } else {
                Fx { raw: 0 }
            }
        } else {
            proof {
                assert(self.raw as i128 * (FX_SCALE as i128) == self.v() * 65536);
            }
            let a: i128 = self.raw as i128 * FX_SCALE as i128;
            let b: i128 = o.raw as i128;
            let am: u128 = if a < 0 {
                (-a) as u128
            } else {
                a as u128
            };
            let bm: u128 = if b < 0 {
                (-b) as u128
            } else {
                b as u128
            };
            let qm: u128 = am / bm;
            let q: i128 = if (a < 0) != (b < 0) {
                -(qm as i128)
            } else {
                qm as i128
            };
            proof {
                assert(a == self.v() * FX_SCALE);
                assert(q == div_trunc(self.v() * FX_SCALE, o.v()));
            }
            Self::clamp_i128(q)
        }
    }

    /// Clamps a wide intermediate into a well-formed scalar.
    fn clamp_i128(q: i128) -> (r: Fx)
        ensures
            r.v() == fx_clamp(q as int),
            r.wf(),
    {
        if q < -FX_RAW_BOUND as i128 {
            Fx { raw: -FX_RAW_BOUND }
        } else if q > FX_RAW_BOUND as i128 {
            Fx { raw: FX_RAW_BOUND }
        } else {
            Fx { raw: q as i64 }
        }
    }

    /// `self < o` on the denoted numbers.
    pub fn lt(self, o: Fx) -> (b: bool)
        ensures
            b == (self.v() < o.v()),
    {
        self.raw < o.raw
    }

    /// `self <= o` on the denoted numbers.
    pub fn le(self, o: Fx) -> (b: bool)
        ensures
            b == (self.v() <= o.v()),
    {
        self.raw <= o.raw
    }

    /// `self > o` on the denoted numbers.
    pub fn gt(self, o: Fx) -> (b: bool)
        ensures
            b == (self.v() > o.v()),
    {
        self.raw > o.raw
    }

    /// `self >= o` on the denoted numbers.
    pub fn ge(self, o: Fx) -> (b: bool)
        ensures
            b == (self.v() >= o.v()),
    {
        self.raw >= o.raw
    }

    /// The larger of the two scalars.
    pub fn max(self, o: Fx) -> (r: Fx)
        ensures
            r == fx_max(self, o),
    {
        if self.raw >= o.raw {
            self
        } else {
            o
        }
    }

    /// The smaller of the two scalars.
    pub fn min(self, o: Fx) -> (r: Fx)
        ensures
            r == fx_min(self, o),
    {
        if self.raw <= o.raw {
            self
        } else {
            o
        }
    }

    /// The fixed-point square root; zero on non-positive inputs, which the
    /// intersection code treats as a degenerate miss.
    pub fn sqrt(self) -> (r: Fx)
        requires
            self.wf(),
        ensures
            r == fx_sqrt(self),
            r.wf(),
            r.v() >= 0,
            self.v() > 0 ==> r.v() * r.v() <= self.v() * FX_SCALE < (r.v() + 1) * (r.v() + 1),
    {
        if self.raw <= 0 {
            Fx { raw: 0 }
        } else {
            let n: u64 = (self.raw as u64) * (FX_SCALE as u64);
            let s: u64 = isqrt_u64(n);
            proof {
                assert(s <= 0x4000_0000_0000) by (nonlinear_arith)
                    requires
                        s * s <= n,
                        n <= 0x4000_0000_0000i128 * 65536,
                ;
            }
            Fx { raw: s as i64 }
        }
    }

    /// The absolute value; exact, since the range is symmetric.
    pub fn abs(self) -> (r: Fx)
        requires
            self.wf(),
        ensures
            r == fx_abs(self),
            r.wf(),
    {
        if self.raw >= 0 {
            self
        } else {
            Fx { raw: -self.raw }
        }
    }
}

} // verus!
