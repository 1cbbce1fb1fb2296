use vstd::prelude::*;
use vstd::arithmetic::div_mod::lemma_fundamental_div_mod;
use vstd::arithmetic::div_mod::lemma_fundamental_div_mod_converse;

verus! {

/// Steps per unit of every quantity.
///
/// A magnitude is an `i128` that counts steps of `1 / SCALE` of its unit. The scale
/// is `54 * 10^15`, so every decimal with up to fifteen fractional digits is exact,
/// and so are sixtieths, three-thousand-six-hundredths and fifteenths of those
/// (arc minutes, arc seconds, and the degree-to-hour factor).
pub const SCALE: i128 = 54_000_000_000_000_000;

/// Largest numerator or denominator that a transform may carry.
pub const MAX_FACTOR: i128 = 10_000_000_000_000_000_000;

/// A magnitude that can be stored, and negated, in an `i128`.
pub open spec fn fits(x: int) -> bool {
    -(i128::MAX as int) <= x <= i128::MAX as int
}

/// Division that rounds toward zero, as Rust's `/` does.
pub open spec fn trunc_div(a: int, d: int) -> int {
    if a >= 0 {
        a / d
    } else {
        -((-a) / d)
    }
}

/// The failure of a conversion between two units of one family.
#[derive(Clone, Copy, Debug, PartialEq, Eq, Structural)]
pub enum ConversionError<U> {
    /// No rule is defined from `from` to `to`.
    UnsupportedConversion { from: U, to: U },
    /// A rule exists, but its result is too large for the magnitude type.
    OutOfRange { from: U, to: U },
}

/// An affine map `v -> trunc((v + pre) * num / den) + post` on magnitudes.
#[derive(Clone, Copy, Debug, PartialEq, Eq, Structural)]
pub struct Transform {
    pub pre: i128,
    pub num: i128,
    pub den: i128,
    pub post: i128,
}

/// The pure scale `v -> trunc(v * num / den)`.
pub open spec fn ratio(num: i128, den: i128) -> Transform {
    Transform { pre: 0, num, den, post: 0 }
}

impl Transform {
    pub open spec fn wf(self) -> bool {
        0 < self.num <= MAX_FACTOR && 0 < self.den <= MAX_FACTOR
    }

    pub open spec fn scaled(self, v: int) -> int {
        trunc_div((v + self.pre) * self.num, self.den as int)
    }

    /// The exact result of the map at `v`.
    pub open spec fn image(self, v: int) -> int {
        self.scaled(v) + self.post
    }

    /// Every intermediate value and the result fit the magnitude type.
    pub open spec fn defined_at(self, v: int) -> bool {
        fits(v + self.pre) && fits(self.scaled(v)) && fits(self.image(v))
    }

    pub fn ratio(num: i128, den: i128) -> (r: Transform)
        ensures
            r == ratio(num, den),
    {
        Transform { pre: 0, num, den, post: 0 }
    }

    /// Applies the map, or returns `None` when a value leaves the magnitude range.
    pub fn apply(&self, v: i128) -> (r: Option<i128>)
        requires
            self.wf(),
        ensures
            r.is_some() == self.defined_at(v as int),
            r.is_some() ==> r.unwrap() == self.image(v as int),
    {
        let shifted = match v.checked_add(self.pre) {
            Some(x) => x,
            None => return None,
        };
        if shifted == i128::MIN {
            return None;
        }
        let scaled = match mul_div_trunc(shifted, self.num, self.den) {
            Some(x) => x,
            None => return None,
        };
        match scaled.checked_add(self.post) {
            Some(x) => {
                if x == i128::MIN {
                    None
                } else {
                    Some(x)
                }
            },
            None => None,
        }
    }
}

proof fn lemma_split_quotient(m: int, n: int, d: int)
    requires
        m >= 0,
        n > 0,
        d > 0,
    ensures
        m * n / d == (m / d) * n + (m % d) * n / d,
        m * n >= 0,
{
    let q = m / d;
    let r = m % d;
    lemma_fundamental_div_mod(m, d);
    lemma_fundamental_div_mod((r * n), d);
    let q2 = (r * n) / d;
    let r2 = (r * n) % d;
    assert(m * n == (q * n + q2) * d + r2) by (nonlinear_arith)
        requires
            m == d * q + r,
            r * n == d * q2 + r2,
    ;
    assert(0 <= r2 < d) by {
        vstd::arithmetic::div_mod::lemma_mod_pos_bound(r * n, d);
    }
    assert(r * n >= 0) by (nonlinear_arith)
        requires
            r >= 0,
            n > 0,
    ;
    lemma_fundamental_div_mod_converse(m * n, d, q * n + q2, r2);
    assert(m * n >= 0) by (nonlinear_arith)
        requires
            m >= 0,
            n > 0,
    ;
}

/// `trunc(a * num / den)`, or `None` when that value does not fit.
pub fn mul_div_trunc(a: i128, num: i128, den: i128) -> (r: Option<i128>)
    requires
        fits(a as int),
        0 < num <= MAX_FACTOR,
        0 < den <= MAX_FACTOR,
    ensures
        r.is_some() == fits(trunc_div(a * num, den as int)),
        r.is_some() ==> r.unwrap() == trunc_div(a * num, den as int),
{
    let neg = a < 0;
    let m: u128 = if neg {
        (-a) as u128
    } else {
        a as u128
    };
    let n = num as u128;
    let d = den as u128;
    let q = m / d;
    let rem = m % d;
    proof {
        lemma_split_quotient(m as int, n as int, d as int);
        assert(rem * n <= d * n) by (nonlinear_arith)
            requires
                rem < d,
                n > 0,
        ;
        assert(d * n <= MAX_FACTOR * MAX_FACTOR) by (nonlinear_arith)
            requires
                0 < d <= MAX_FACTOR,
                0 < n <= MAX_FACTOR,
        ;
        if neg {
            assert(a * num == -(m * n)) by (nonlinear_arith)
                requires
                    m == -a,
                    n == num,
            ;
            assert(m * n > 0) by (nonlinear_arith)
                requires
                    m > 0,
                    n > 0,
            ;
        }
    }
    let lo = rem * n / d;
    assert(0 <= (rem * n) / (d as int) <= rem * n) by {
        vstd::arithmetic::div_mod::lemma_div_is_ordered_by_denominator(
            (rem * n) as int,
            1,
            d as int,
        );
    }
    match q.checked_mul(n) {
        None => None,
        Some(hi) => match hi.checked_add(lo) {
            None => None,
            Some(t) => {
                if t > i128::MAX as u128 {
                    None
                } else if neg {
                    Some(-(t as i128))
                } else {
                    Some(t as i128)
                }
            },
        },
    }
}

/// A conversion's result as a mathematical integer.
pub open spec fn widen<U>(r: Result<i128, ConversionError<U>>) -> Result<int, ConversionError<U>> {
    match r {
        Ok(x) => Ok(x as int),
        Err(e) => Err(e),
    }
}

/// What applying a family's rule (if any) from `from` to `to` gives at `v`.
pub open spec fn outcome<U>(rule: Option<Transform>, v: int, from: U, to: U) -> Result<
    int,
    ConversionError<U>,
> {
    match rule {
        None => Err(ConversionError::UnsupportedConversion { from, to }),
        Some(t) => if t.defined_at(v) {
            Ok(t.image(v))
        } else {
            Err(ConversionError::OutOfRange { from, to })
        },
    }
}

/// Applies a family's rule (if any) from `from` to `to` at `v`.
pub fn run_rule<U>(rule: Option<Transform>, v: i128, from: U, to: U) -> (r: Result<
    i128,
    ConversionError<U>,
>)
    requires
        rule matches Some(t) ==> t.wf(),
    ensures
        widen(r) == outcome(rule, v as int, from, to),
{
    match rule {
        None => Err(ConversionError::UnsupportedConversion { from, to }),
        Some(t) => match t.apply(v) {
            Some(x) => Ok(x),
            None => Err(ConversionError::OutOfRange { from, to }),
        },
    }
}

/// Two transforms that undo each other exactly over the rationals.
pub open spec fn inverse_pair(t1: Transform, t2: Transform) -> bool {
    t1.num * t2.num == t1.den * t2.den && t1.post + t2.pre == 0 && t2.post + t1.pre == 0
}

pub open spec fn abs_diff(a: int, b: int) -> int {
    if a >= b {
        a - b
    } else {
        b - a
    }
}

proof fn lemma_floor_round_trip(a: int, n1: int, d1: int, n2: int, d2: int)
    requires
        a >= 0,
        n1 > 0,
        d1 > 0,
        n2 > 0,
        d2 > 0,
        n1 * n2 == d1 * d2,
    ensures
        a * n1 >= 0,
        a * n1 / d1 >= 0,
        (a * n1 / d1) * n2 >= 0,
        0 <= a - (a * n1 / d1) * n2 / d2,
        (a - (a * n1 / d1) * n2 / d2) * n1 < d1 + n1,
{
    assert(a * n1 >= 0) by (nonlinear_arith)
        requires
            a >= 0,
            n1 > 0,
    ;
    let w = a * n1 / d1;
    lemma_fundamental_div_mod(a * n1, d1);
    vstd::arithmetic::div_mod::lemma_mod_pos_bound(a * n1, d1);
    assert(w >= 0) by {
        vstd::arithmetic::div_mod::lemma_div_pos_is_pos(a * n1, d1);
    }
    assert(w * n2 >= 0) by (nonlinear_arith)
        requires
            w >= 0,
            n2 > 0,
    ;
    let b = w * n2 / d2;
    lemma_fundamental_div_mod(w * n2, d2);
    vstd::arithmetic::div_mod::lemma_mod_pos_bound(w * n2, d2);
    // 0 <= a*n1 - w*d1 < d1 and 0 <= w*n2 - b*d2 < d2
    assert(0 <= w * d1 - b * n1 < n1) by (nonlinear_arith)
        requires
            0 <= w * n2 - b * d2 < d2,
            n1 * n2 == d1 * d2,
            n1 > 0,
            d2 > 0,
    ;
    assert(0 <= (a - b) * n1 < d1 + n1) by (nonlinear_arith)
        requires
            0 <= a * n1 - w * d1 < d1,
            0 <= w * d1 - b * n1 < n1,
    ;
    assert(0 <= a - b) by (nonlinear_arith)
        requires
            0 <= (a - b) * n1,
            n1 > 0,
    ;
}

/// Converting there and back with two mutually inverse transforms returns to the
/// start, up to the rounding of both steps: less than `den / num + 1` steps away.
pub proof fn lemma_round_trip(t1: Transform, t2: Transform, v: int)
    requires
        t1.wf(),
        t2.wf(),
        inverse_pair(t1, t2),
    ensures
        abs_diff(t2.image(t1.image(v)), v) * t1.num < t1.den + t1.num,
{
    let a = v + t1.pre;
    let n1 = t1.num as int;
    let d1 = t1.den as int;
    let n2 = t2.num as int;
    let d2 = t2.den as int;
    assert(t1.image(v) + t2.pre == t1.scaled(v));
    let back = t2.image(t1.image(v));
    if a >= 0 {
        lemma_floor_round_trip(a, n1, d1, n2, d2);
        let w = a * n1 / d1;
        assert(t1.scaled(v) == w);
        assert(back == w * n2 / d2 - t1.pre);
        assert(abs_diff(back, v) == a - w * n2 / d2);
    } else {
        let b = -a;
        lemma_floor_round_trip(b, n1, d1, n2, d2);
        assert(a * n1 == -(b * n1)) by (nonlinear_arith)
            requires
                b == -a,
        ;
        assert(b * n1 > 0) by (nonlinear_arith)
            requires
                b > 0,
                n1 > 0,
        ;
        let w = b * n1 / d1;
        assert(t1.scaled(v) == -w);
        if w > 0 {
            assert((-w) * n2 == -(w * n2)) by (nonlinear_arith);
            assert(w * n2 > 0) by (nonlinear_arith)
                requires
                    w > 0,
                    n2 > 0,
            ;
            assert(back == -(w * n2 / d2) - t1.pre);
        } else {
            assert(w == 0);
            assert(w * n2 / d2 == 0) by (nonlinear_arith)
                requires
                    w == 0,
                    d2 > 0,
            ;
            assert((-w) * n2 == 0) by (nonlinear_arith)
                requires
                    w == 0,
            ;
            assert(back == -(w * n2 / d2) - t1.pre);
        }
        assert(abs_diff(back, v) == b - w * n2 / d2);
    }
}

/// Two pure scales whose rates multiply to within a thousandth of one.
pub open spec fn near_inverse_pair(t1: Transform, t2: Transform) -> bool {
    &&& t1.pre == 0 && t1.post == 0 && t2.pre == 0 && t2.post == 0
    &&& 1000 * abs_diff(t1.num * t2.num, t1.den * t2.den) <= t1.den * t2.den
}

proof fn lemma_floor_round_trip_near(a: int, n1: int, d1: int, n2: int, d2: int)
    requires
        a >= 0,
        n1 > 0,
        d1 > 0,
        n2 > 0,
        d2 > 0,
        1000 * abs_diff(n1 * n2, d1 * d2) <= d1 * d2,
    ensures
        a * n1 >= 0,
        a * n1 / d1 >= 0,
        (a * n1 / d1) * n2 >= 0,
        1000 * (abs_diff((a * n1 / d1) * n2 / d2, a) * (d1 * d2)) <= a * (d1 * d2) + 1000 * (d1
            * n2 + d1 * d2),
{
    assert(a * n1 >= 0) by (nonlinear_arith)
        requires
            a >= 0,
            n1 > 0,
    ;
    let w = a * n1 / d1;
    let r1 = (a * n1) % d1;
    lemma_fundamental_div_mod(a * n1, d1);
    vstd::arithmetic::div_mod::lemma_mod_pos_bound(a * n1, d1);
    assert(w >= 0) by {
        vstd::arithmetic::div_mod::lemma_div_pos_is_pos(a * n1, d1);
    }
    assert(w * n2 >= 0) by (nonlinear_arith)
        requires
            w >= 0,
            n2 > 0,
    ;
    let b = w * n2 / d2;
    let r2 = (w * n2) % d2;
    lemma_fundamental_div_mod(w * n2, d2);
    vstd::arithmetic::div_mod::lemma_mod_pos_bound(w * n2, d2);
    let dd = d1 * d2;
    let p = n1 * n2;
    let x = r1 * n2 + r2 * d1;
    assert(dd > 0) by (nonlinear_arith)
        requires
            d1 > 0,
            d2 > 0,
            dd == d1 * d2,
    ;
    assert(b * dd == (b * d2) * d1) by (nonlinear_arith)
        requires
            dd == d1 * d2,
    ;
    assert((b * d2) * d1 == (w * n2) * d1 - r2 * d1) by (nonlinear_arith)
        requires
            b * d2 == w * n2 - r2,
    ;
    assert((w * n2) * d1 == (w * d1) * n2) by (nonlinear_arith);
    assert((w * d1) * n2 == (a * n1) * n2 - r1 * n2) by (nonlinear_arith)
        requires
            w * d1 == a * n1 - r1,
    ;
    assert((a * n1) * n2 == a * p) by (nonlinear_arith)
        requires
            p == n1 * n2,
    ;
    assert(b * dd == a * p - x);
    assert(0 <= x < d1 * n2 + dd) by (nonlinear_arith)
        requires
            0 <= r1 < d1,
            0 <= r2 < d2,
            n2 > 0,
            d1 > 0,
            dd == d1 * d2,
            x == r1 * n2 + r2 * d1,
    ;
    let e = abs_diff(p, dd);
    assert(1000 * (a * e) <= a * dd) by (nonlinear_arith)
        requires
            a >= 0,
            1000 * e <= dd,
    ;
    assert(a * p - a * dd <= a * e && a * dd - a * p <= a * e) by (nonlinear_arith)
        requires
            a >= 0,
            e == abs_diff(p, dd),
    ;
    assert(abs_diff(b, a) * dd == abs_diff(b * dd, a * dd)) by (nonlinear_arith)
        requires
            dd > 0,
    ;
    assert(abs_diff(b * dd, a * dd) <= a * e + x);
}

/// Converting there and back with two pure scales whose rates multiply to within a
/// thousandth of one returns to the start within a thousandth of its magnitude,
/// plus the rounding of both steps.
pub proof fn lemma_round_trip_near(t1: Transform, t2: Transform, v: int)
    requires
        t1.wf(),
        t2.wf(),
        near_inverse_pair(t1, t2),
    ensures
        1000 * (abs_diff(t2.image(t1.image(v)), v) * (t1.den * t2.den)) <= abs_diff(v, 0) * (
        t1.den * t2.den) + 1000 * (t1.den * t2.num + t1.den * t2.den),
{
    let n1 = t1.num as int;
    let d1 = t1.den as int;
    let n2 = t2.num as int;
    let d2 = t2.den as int;
    let back = t2.image(t1.image(v));
    if v >= 0 {
        lemma_floor_round_trip_near(v, n1, d1, n2, d2);
        let w = v * n1 / d1;
        assert(t1.image(v) == w);
        assert(back == w * n2 / d2);
    } else {
        let b = -v;
        lemma_floor_round_trip_near(b, n1, d1, n2, d2);
        assert(v * n1 == -(b * n1)) by (nonlinear_arith)
            requires
                b == -v,
        ;
        assert(b * n1 > 0) by (nonlinear_arith)
            requires
                b > 0,
                n1 > 0,
        ;
        let w = b * n1 / d1;
        assert(t1.image(v) == -w);
        if w > 0 {
            assert((-w) * n2 == -(w * n2)) by (nonlinear_arith);
            assert(w * n2 > 0) by (nonlinear_arith)
                requires
                    w > 0,
                    n2 > 0,
            ;
            assert(back == -(w * n2 / d2));
        } else {
            assert(w == 0);
            assert(w * n2 / d2 == 0) by (nonlinear_arith)
                requires
                    w == 0,
                    d2 > 0,
            ;
            assert((-w) * n2 == 0) by (nonlinear_arith)
                requires
                    w == 0,
            ;
            assert(back == -(w * n2 / d2));
        }
        assert(abs_diff(back, v) == abs_diff(w * n2 / d2, b));
    }
}

} // verus!
