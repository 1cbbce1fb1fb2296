use vstd::prelude::*;

pub mod dms;
pub mod hms;
pub mod radian;



pub use dms::DMS;
pub use hms::HMS;
pub use radian::Radian;

use vstd::arithmetic::div_mod::lemma_fundamental_div_mod;
use vstd::arithmetic::div_mod::lemma_fundamental_div_mod_converse;

use crate::rule::abs_diff;
use crate::rule::inverse_pair;
use crate::rule::lemma_round_trip;
use crate::rule::outcome;
use crate::rule::ratio;
use crate::rule::run_rule;
use crate::rule::widen;
use crate::rule::ConversionError;
use crate::rule::Transform;
use crate::traits::CanConvertUnit;
use crate::traits::HasConvertableUnit;
use crate::rule::SCALE;

verus! {

/// Steps in one second (a 3600th) of a degree or an hour.
pub const STEPS_PER_SECOND: i128 = 15_000_000_000_000;

/// Pi radians, in steps, rounded to the nearest step.
pub const PI_STEPS: i128 = 169_646_003_293_848_835;

/// Half a turn in degrees (180), in steps.
pub const HALF_TURN_DEGREES: i128 = 9_720_000_000_000_000_000;

/// Half a turn in hours (12), in steps.
pub const HALF_TURN_HOURS: i128 = 648_000_000_000_000_000;

#[derive(Clone, Copy, Debug, PartialEq, Eq, Structural)]
pub enum AngularUnit {
    /// Degrees, arc minutes and arc seconds; its scalar is decimal degrees.
    DMS,
    /// Hours, minutes and seconds of time; its scalar is decimal hours.
    HMS,
    Radian,
}

pub open spec fn angular_label(u: AngularUnit) -> Seq<char> {
    match u {
        AngularUnit::DMS => "dms"@,
        AngularUnit::HMS => "hms"@,
        AngularUnit::Radian => "rad"@,
    }
}

impl AngularUnit {
    /// The unit's printable name.
    pub fn label(&self) -> (r: String)
        ensures
            r@ == angular_label(*self),
    {
        let s = match self {
            AngularUnit::DMS => "dms",
            AngularUnit::HMS => "hms",
            AngularUnit::Radian => "rad",
        };
        s.to_string()
    }
}

/// A construction of a compound angle was given a component out of its bounds.
#[derive(Clone, Copy, Debug, PartialEq, Eq, Structural)]
pub enum InvalidComponentValue {
    /// The degree or hour, as given.
    Whole(i16),
    Minute(u8),
    Second(u8),
}

pub open spec fn magnitude(v: int) -> int {
    if v < 0 {
        -v
    } else {
        v
    }
}

/// The whole units of `|v|`.
pub open spec fn whole_part(v: int) -> int {
    magnitude(v) / (SCALE as int)
}

/// The fraction of `|v|` times sixty, truncated.
pub open spec fn minute_part(v: int) -> int {
    (magnitude(v) % (SCALE as int)) * 60 / (SCALE as int)
}

/// The fraction of the minutes times sixty, truncated.
pub open spec fn second_part(v: int) -> int {
    ((magnitude(v) % (SCALE as int)) * 60 % (SCALE as int)) * 60 / (SCALE as int)
}

/// The compound form of `v`: its sign, its whole units reduced modulo `wrap`, and
/// its truncated minutes and seconds.
pub open spec fn sexagesimal(v: int, wrap: int) -> (bool, int, int, int) {
    (v < 0, whole_part(v) % wrap, minute_part(v), second_part(v))
}

/// The decimal value, in steps, of a compound angle.
pub open spec fn compose(negative: bool, whole: int, minute: int, second: int) -> int {
    let m = (whole * 3600 + minute * 60 + second) * STEPS_PER_SECOND;
    if negative {
        -m
    } else {
        m
    }
}

/// Splits `v` into sign, whole units, minutes and seconds.
pub fn decompose(v: i128) -> (r: (bool, u128, u8, u8))
    ensures
        r.0 == (v < 0),
        r.1 == whole_part(v as int),
        r.2 == minute_part(v as int),
        r.3 == second_part(v as int),
        r.2 < 60,
        r.3 < 60,
{
    let negative = v < 0;
    let a: u128 = if negative {
        ((-(v + 1)) as u128) + 1
    } else {
        v as u128
    };
    let s = SCALE as u128;
    let whole = a / s;
    let frac = a % s;
    let minutes = frac * 60;
    let seconds = (minutes % s) * 60;
    assert(minutes / s < 60);
    assert(seconds / s < 60);
    (negative, whole, (minutes / s) as u8, (seconds / s) as u8)
}

/// The rule between two distinct angular units, except from radians, which wrap.
pub open spec fn angular_rule(from: AngularUnit, to: AngularUnit) -> Option<Transform> {
    match (from, to) {
        (AngularUnit::DMS, AngularUnit::Radian) => Some(ratio(PI_STEPS, HALF_TURN_DEGREES)),
        (AngularUnit::DMS, AngularUnit::HMS) => Some(ratio(1, 15)),
        (AngularUnit::HMS, AngularUnit::Radian) => Some(ratio(PI_STEPS, HALF_TURN_HOURS)),
        (AngularUnit::HMS, AngularUnit::DMS) => Some(ratio(15, 1)),
        _ => None,
    }
}

/// Looks up the rule from `from` to `to`.
pub fn angular_rule_of(from: AngularUnit, to: AngularUnit) -> (r: Option<Transform>)
    ensures
        r == angular_rule(from, to),
        r matches Some(t) ==> t.wf(),
{
    match (from, to) {
        (AngularUnit::DMS, AngularUnit::Radian) => Some(
            Transform::ratio(PI_STEPS, HALF_TURN_DEGREES),
        ),
        (AngularUnit::DMS, AngularUnit::HMS) => Some(Transform::ratio(1, 15)),
        (AngularUnit::HMS, AngularUnit::Radian) => Some(
            Transform::ratio(PI_STEPS, HALF_TURN_HOURS),
        ),
        (AngularUnit::HMS, AngularUnit::DMS) => Some(Transform::ratio(15, 1)),
        _ => None,
    }
}

/// An angle `v` in radians as a value in `[0, 2 * half_turn)` of a unit with
/// `half_turn` steps to half a turn: the angle is first reduced to `[0, 2 pi)`,
/// with a non-negative remainder, then scaled and rounded down.
pub open spec fn radians_to_turn(v: int, half_turn: int) -> int {
    (v % (2 * PI_STEPS)) * half_turn / (PI_STEPS as int)
}

/// Computes `radians_to_turn(v, half_turn)`.
fn wrap_radians(v: i128, half_turn: i128) -> (r: i128)
    requires
        0 < half_turn <= HALF_TURN_DEGREES,
    ensures
        r == radians_to_turn(v as int, half_turn as int),
        0 <= r < 2 * half_turn,
{
    let m = match v.checked_rem_euclid(2 * PI_STEPS) {
        Some(x) => x,
        None => 0,
    };
    assert(0 <= m < 2 * PI_STEPS);
    let p = m as u128;
    let h = half_turn as u128;
    assert(p * h < 2 * PI_STEPS * HALF_TURN_DEGREES) by (nonlinear_arith)
        requires
            p < 2 * PI_STEPS,
            0 < h <= HALF_TURN_DEGREES,
    ;
    let q = p * h / (PI_STEPS as u128);
    assert(q < 2 * half_turn) by (nonlinear_arith)
        requires
            p < 2 * PI_STEPS,
            0 < h == half_turn,
            q == p * h / (PI_STEPS as int),
    ;
    q as i128
}

/// The scalar in `to` of an angle whose scalar in `from` is `v`.
///
/// Decimal degrees and decimal hours scale into each other and into radians;
/// radians go to degrees or hours with wrap-around into one turn.
pub open spec fn angular_conversion(v: int, from: AngularUnit, to: AngularUnit) -> Result<
    int,
    ConversionError<AngularUnit>,
> {
    if from == to {
        Ok(v)
    } else {
        match (from, to) {
            (AngularUnit::Radian, AngularUnit::DMS) => Ok(radians_to_turn(v, HALF_TURN_DEGREES as int)),
            (AngularUnit::Radian, AngularUnit::HMS) => Ok(radians_to_turn(v, HALF_TURN_HOURS as int)),
            _ => outcome(angular_rule(from, to), v, from, to),
        }
    }
}

/// Converts the scalar `v` of an angle from `from` to `to`.
pub fn convert_angle(v: i128, from: AngularUnit, to: AngularUnit) -> (r: Result<
    i128,
    ConversionError<AngularUnit>,
>)
    ensures
        widen(r) == angular_conversion(v as int, from, to),
{
    if from == to {
        Ok(v)
    } else {
        match (from, to) {
            (AngularUnit::Radian, AngularUnit::DMS) => Ok(wrap_radians(v, HALF_TURN_DEGREES)),
            (AngularUnit::Radian, AngularUnit::HMS) => Ok(wrap_radians(v, HALF_TURN_HOURS)),
            _ => run_rule(angular_rule_of(from, to), v, from, to),
        }
    }
}

/// The decimal value, in steps, of a compound form.
pub open spec fn compose_parts(p: (bool, int, int, int)) -> int {
    compose(p.0, p.1, p.2, p.3)
}

/// The scalar of the quantity that the factory builds from `value` in `unit`.
pub open spec fn built_scalar(value: int, unit: AngularUnit) -> int {
    match unit {
        AngularUnit::DMS => compose_parts(sexagesimal(value, 360)),
        AngularUnit::HMS => compose_parts(sexagesimal(value, 24)),
        AngularUnit::Radian => value,
    }
}

/// An angle in one of the family's units.
pub enum Angle {
    DMS(DMS),
    HMS(HMS),
    Radian(Radian),
}

impl HasConvertableUnit for Angle {
    type Unit = AngularUnit;

    open spec fn spec_unit(&self) -> AngularUnit {
        match self {
            Angle::DMS(_) => AngularUnit::DMS,
            Angle::HMS(_) => AngularUnit::HMS,
            Angle::Radian(_) => AngularUnit::Radian,
        }
    }

    open spec fn spec_scalar(&self) -> int {
        match self {
            Angle::DMS(q) => q.spec_scalar(),
            Angle::HMS(q) => q.spec_scalar(),
            Angle::Radian(q) => q@,
        }
    }

    open spec fn conversion(v: int, from: AngularUnit, to: AngularUnit) -> Result<
        int,
        ConversionError<AngularUnit>,
    > {
        angular_conversion(v, from, to)
    }

    fn scalar(&self) -> (r: i128) {
        match self {
            Angle::DMS(q) => q.scalar(),
            Angle::HMS(q) => q.scalar(),
            Angle::Radian(q) => q.scalar(),
        }
    }

    fn unit(&self) -> (r: AngularUnit) {
        match self {
            Angle::DMS(q) => q.unit(),
            Angle::HMS(q) => q.unit(),
            Angle::Radian(q) => q.unit(),
        }
    }

    fn convert_scalar(&self, to_unit: &AngularUnit) -> (r: Result<i128, ConversionError<AngularUnit>>) {
        match self {
            Angle::DMS(q) => q.convert_scalar(to_unit),
            Angle::HMS(q) => q.convert_scalar(to_unit),
            Angle::Radian(q) => q.convert_scalar(to_unit),
        }
    }
}

pub struct AngularFactory {}

impl AngularFactory {
    /// Wraps a scalar in the quantity of `unit`; compound units decompose it.
    pub fn build(value: i128, unit: AngularUnit) -> (r: Angle)
        ensures
            r.spec_unit() == unit,
            r.spec_scalar() == built_scalar(value as int, unit),
            r matches Angle::DMS(d) ==> d.spec_parts() == sexagesimal(value as int, 360),
            r matches Angle::HMS(h) ==> h.spec_parts() == sexagesimal(value as int, 24),
    {
        match unit {
            AngularUnit::DMS => Angle::DMS(DMS::from_decimal(value)),
            AngularUnit::HMS => Angle::HMS(HMS::from_decimal(value)),
            AngularUnit::Radian => Angle::Radian(Radian::new(value)),
        }
    }
}

/// Holds one angle and converts it to other units.
pub struct AngularConverter {
    angle: Angle,
}

impl View for AngularConverter {
    type V = Angle;

    closed spec fn view(&self) -> Angle {
        self.angle
    }
}

impl AngularConverter {
    pub fn new(value: i128, unit: AngularUnit) -> (r: AngularConverter)
        ensures
            r@.spec_unit() == unit,
            r@.spec_scalar() == built_scalar(value as int, unit),
    {
        AngularConverter { angle: AngularFactory::build(value, unit) }
    }
}

impl CanConvertUnit for AngularConverter {
    type Unit = AngularUnit;

    type Quantity = Angle;

    open spec fn converts_to(
        &self,
        to_unit: AngularUnit,
        r: Result<Angle, ConversionError<AngularUnit>>,
    ) -> bool {
        match r {
            Ok(a) => a.spec_unit() == to_unit && (angular_conversion(
                self@.spec_scalar(),
                self@.spec_unit(),
                to_unit,
            ) matches Ok(x) && a.spec_scalar() == built_scalar(x, to_unit)),
            Err(e) => angular_conversion(self@.spec_scalar(), self@.spec_unit(), to_unit)
                == Err::<int, ConversionError<AngularUnit>>(e),
        }
    }

    /// A new angle in `to_unit`, built from the converted scalar.
    fn convert(&self, to_unit: AngularUnit) -> (r: Result<Angle, ConversionError<AngularUnit>>) {
        match self.angle.convert_scalar(&to_unit) {
            Ok(v) => Ok(AngularFactory::build(v, to_unit)),
            Err(e) => Err(e),
        }
    }
}

/// An angle converts to its own unit unchanged.
pub proof fn lemma_angular_self_conversion(v: int, u: AngularUnit)
    ensures
        angular_conversion(v, u, u) == Ok::<int, ConversionError<AngularUnit>>(v),
{
}

/// Decomposing a negative value keeps the sign apart: the components are those
/// of its magnitude, and only the sign differs.
pub proof fn lemma_sign_preservation(v: int, wrap: int)
    requires
        v < 0,
    ensures
        sexagesimal(v, wrap).0,
        !sexagesimal(-v, wrap).0,
        sexagesimal(v, wrap).1 == sexagesimal(-v, wrap).1,
        sexagesimal(v, wrap).2 == sexagesimal(-v, wrap).2,
        sexagesimal(v, wrap).3 == sexagesimal(-v, wrap).3,
{
}

/// Decomposing the decimal value of in-bounds components gives those components
/// back exactly.
pub proof fn lemma_compose_decompose(negative: bool, whole: int, minute: int, second: int, wrap: int)
    requires
        0 <= whole < wrap,
        0 <= minute < 60,
        0 <= second < 60,
        negative ==> whole * 3600 + minute * 60 + second > 0,
    ensures
        sexagesimal(compose(negative, whole, minute, second), wrap) == (
            negative,
            whole,
            minute,
            second,
        ),
{
    let s = SCALE as int;
    let sps = STEPS_PER_SECOND as int;
    let v = compose(negative, whole, minute, second);
    let m = (whole * 3600 + minute * 60 + second) * sps;
    assert(magnitude(v) == m);
    assert(m == whole * s + (minute * 60 + second) * sps);
    lemma_fundamental_div_mod_converse(m, s, whole, (minute * 60 + second) * sps);
    let f = (minute * 60 + second) * sps;
    assert(f * 60 == minute * s + second * 60 * sps);
    lemma_fundamental_div_mod_converse(f * 60, s, minute, second * 60 * sps);
    let g = second * 60 * sps;
    assert(g * 60 == second * s + 0);
    lemma_fundamental_div_mod_converse(g * 60, s, second, 0);
    vstd::arithmetic::div_mod::lemma_small_mod(whole as nat, wrap as nat);
}

/// Composing the compound form of `v` gives `v` with its magnitude truncated to
/// whole seconds: less than one second (of a degree or an hour) nearer zero.
pub proof fn lemma_decompose_compose(v: int, wrap: int)
    requires
        0 <= whole_part(v) < wrap,
    ensures
        (compose_parts(sexagesimal(v, wrap)) < 0) ==> v < 0,
        0 <= magnitude(v) - magnitude(compose_parts(sexagesimal(v, wrap))) < STEPS_PER_SECOND,
{
    let s = SCALE as int;
    let a = magnitude(v);
    let w = whole_part(v);
    let f = a % s;
    let m = minute_part(v);
    let g = (f * 60) % s;
    let sec = second_part(v);
    let h = (g * 60) % s;
    lemma_fundamental_div_mod(a, s);
    lemma_fundamental_div_mod(f * 60, s);
    lemma_fundamental_div_mod(g * 60, s);
    vstd::arithmetic::div_mod::lemma_mod_pos_bound(a, s);
    vstd::arithmetic::div_mod::lemma_mod_pos_bound(f * 60, s);
    vstd::arithmetic::div_mod::lemma_mod_pos_bound(g * 60, s);
    vstd::arithmetic::div_mod::lemma_small_mod(w as nat, wrap as nat);
    let c = (w * 3600 + m * 60 + sec) * STEPS_PER_SECOND;
    assert(3600 * (a - c) == h);
}

/// The decimal value of in-bounds components lies strictly within `wrap` whole
/// units either way; for degrees and hours that is within one turn.
pub proof fn lemma_compose_within_turn(negative: bool, whole: int, minute: int, second: int, wrap: int)
    requires
        0 <= whole < wrap,
        0 <= minute < 60,
        0 <= second < 60,
    ensures
        magnitude(compose(negative, whole, minute, second)) < wrap * SCALE,
{
    assert((whole * 3600 + minute * 60 + second) * STEPS_PER_SECOND < wrap * SCALE) by (
    nonlinear_arith)
        requires
            0 <= whole < wrap,
            0 <= minute < 60,
            0 <= second < 60,
            STEPS_PER_SECOND * 3600 == SCALE,
    ;
}

/// One full turn of a unit, in steps.
pub open spec fn full_turn(u: AngularUnit) -> int {
    match u {
        AngularUnit::DMS => 2 * HALF_TURN_DEGREES,
        AngularUnit::HMS => 2 * HALF_TURN_HOURS,
        AngularUnit::Radian => 2 * PI_STEPS,
    }
}

proof fn lemma_ratio_image_nonneg(n: i128, d: i128, v: int)
    requires
        0 < n,
        0 < d,
        0 <= v,
    ensures
        v * n >= 0,
        ratio(n, d).image(v) == v * n / (d as int),
{
    assert(v * n >= 0) by (nonlinear_arith)
        requires
            0 <= v,
            0 < n,
    ;
}

/// From degrees or hours within one turn to radians and back, or from radians
/// within one turn to degrees or hours and back.
proof fn lemma_turn_round_trip(v: int, a: AngularUnit, half: int, w: int, back: int)
    requires
        a != AngularUnit::Radian,
        half == full_turn(a) / 2,
        0 <= v < full_turn(a),
        angular_conversion(v, a, AngularUnit::Radian) == Ok::<int, ConversionError<AngularUnit>>(w),
        angular_conversion(w, AngularUnit::Radian, a) == Ok::<int, ConversionError<AngularUnit>>(back),
    ensures
        abs_diff(back, v) <= 58,
{
    let p = PI_STEPS as int;
    let t1 = ratio(PI_STEPS, half as i128);
    let t2 = ratio(half as i128, PI_STEPS);
    assert(angular_rule(a, AngularUnit::Radian) == Some(t1));
    lemma_ratio_image_nonneg(PI_STEPS, half as i128, v);
    assert(w == v * p / half);
    assert(w < 2 * p) by (nonlinear_arith)
        requires
            0 <= v < 2 * half,
            0 < p,
            0 < half,
            w == v * p / half,
    ;
    assert(w >= 0) by (nonlinear_arith)
        requires
            0 <= v,
            0 < p,
            0 < half,
            w == v * p / half,
    ;
    vstd::arithmetic::div_mod::lemma_small_mod(w as nat, (2 * p) as nat);
    lemma_ratio_image_nonneg(half as i128, PI_STEPS, w);
    assert(back == t2.image(w));
    assert(inverse_pair(t1, t2)) by (nonlinear_arith)
        requires
            t1.num == t2.den,
            t1.den == t2.num,
            t1.post == 0 && t2.pre == 0 && t2.post == 0 && t1.pre == 0,
    ;
    lemma_round_trip(t1, t2, v);
    let e = abs_diff(back, v);
    assert(e <= 58) by (nonlinear_arith)
        requires
            e * p < half + p,
            half <= 9_720_000_000_000_000_000,
            p == 169_646_003_293_848_835,
    ;
}

proof fn lemma_radian_round_trip(v: int, b: AngularUnit, half: int, w: int, back: int)
    requires
        b != AngularUnit::Radian,
        half == full_turn(b) / 2,
        0 <= v < full_turn(AngularUnit::Radian),
        angular_conversion(v, AngularUnit::Radian, b) == Ok::<int, ConversionError<AngularUnit>>(w),
        angular_conversion(w, b, AngularUnit::Radian) == Ok::<int, ConversionError<AngularUnit>>(back),
    ensures
        abs_diff(back, v) <= 1,
{
    let p = PI_STEPS as int;
    let t1 = ratio(half as i128, PI_STEPS);
    let t2 = ratio(PI_STEPS, half as i128);
    vstd::arithmetic::div_mod::lemma_small_mod(v as nat, (2 * p) as nat);
    lemma_ratio_image_nonneg(half as i128, PI_STEPS, v);
    assert(w == t1.image(v));
    assert(angular_rule(b, AngularUnit::Radian) == Some(t2));
    assert(w >= 0) by (nonlinear_arith)
        requires
            0 <= v,
            0 < p,
            0 < half,
            w == v * half / p,
    ;
    assert(back == t2.image(w));
    assert(inverse_pair(t1, t2)) by (nonlinear_arith)
        requires
            t1.num == t2.den,
            t1.den == t2.num,
            t1.post == 0 && t2.pre == 0 && t2.post == 0 && t1.pre == 0,
    ;
    lemma_round_trip(t1, t2, v);
    let e = abs_diff(back, v);
    assert(e <= 1) by (nonlinear_arith)
        requires
            e * half < p + half,
            half >= 648_000_000_000_000_000,
            p == 169_646_003_293_848_835,
    ;
}

/// Converting an angle to another unit and back returns to the start within 58
/// steps (about 1e-15 of a unit). Where radians are involved the start must lie
/// within one turn, since conversion from radians wraps into one turn.
pub proof fn lemma_angular_round_trip(v: int, a: AngularUnit, b: AngularUnit, w: int, back: int)
    requires
        (a == AngularUnit::Radian || b == AngularUnit::Radian) ==> 0 <= v < full_turn(a),
        angular_conversion(v, a, b) == Ok::<int, ConversionError<AngularUnit>>(w),
        angular_conversion(w, b, a) == Ok::<int, ConversionError<AngularUnit>>(back),
    ensures
        abs_diff(back, v) <= 58,
{
    if a == b {
    } else if b == AngularUnit::Radian {
        lemma_turn_round_trip(v, a, full_turn(a) / 2, w, back);
    } else if a == AngularUnit::Radian {
        lemma_radian_round_trip(v, b, full_turn(b) / 2, w, back);
    } else {
        let t1 = angular_rule(a, b)->Some_0;
        let t2 = angular_rule(b, a)->Some_0;
        assert(inverse_pair(t1, t2));
        lemma_round_trip(t1, t2, v);
        let e = abs_diff(back, v);
        let n = t1.num as int;
        let d = t1.den as int;
        assert(e <= 58) by (nonlinear_arith)
            requires
                e * n < d + n,
                d <= 15,
                n >= 1,
        ;
    }
}

} // verus!
