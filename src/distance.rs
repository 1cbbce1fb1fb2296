use vstd::prelude::*;

pub mod astronomical_unit;
pub mod centimeter;
pub mod feet;
pub mod inch;
pub mod kilometer;
pub mod light_year;
pub mod meter;
pub mod mile;
pub mod millimeter;
pub mod parsec;

pub use astronomical_unit::AstronomicalUnit;
pub use centimeter::Centimeter;
pub use feet::Feet;
pub use inch::Inch;
pub use kilometer::Kilometer;
pub use light_year::LightYear;
pub use meter::Meter;
pub use mile::Mile;
pub use millimeter::Millimeter;
pub use parsec::Parsec;

use crate::rule::abs_diff;
use crate::rule::inverse_pair;
use crate::rule::lemma_round_trip;
use crate::rule::lemma_round_trip_near;
use crate::rule::near_inverse_pair;
use crate::rule::outcome;
use crate::rule::ratio;
use crate::rule::run_rule;
use crate::rule::widen;
use crate::rule::ConversionError;
use crate::rule::Transform;
use crate::traits::CanConvertUnit;
use crate::traits::HasConvertableUnit;

verus! {

#[derive(Clone, Copy, Debug, PartialEq, Eq, Structural)]
pub enum DistanceUnit {
    Millimeter,
    Centimeter,
    Meter,
    Kilometer,
    Inch,
    Feet,
    Mile,
    LightYear,
    AstronomicalUnit,
    Parsec,
}

pub open spec fn distance_label(u: DistanceUnit) -> Seq<char> {
    match u {
        DistanceUnit::Millimeter => "millimeter"@,
        DistanceUnit::Centimeter => "centimeter"@,
        DistanceUnit::Meter => "meter"@,
        DistanceUnit::Kilometer => "kilometer"@,
        DistanceUnit::Inch => "inch"@,
        DistanceUnit::Feet => "feet"@,
        DistanceUnit::Mile => "mile"@,
        DistanceUnit::LightYear => "light year"@,
        DistanceUnit::AstronomicalUnit => "astronomical unit"@,
        DistanceUnit::Parsec => "parsec"@,
    }
}

impl DistanceUnit {
    /// The unit's printable name.
    pub fn label(&self) -> (r: String)
        ensures
            r@ == distance_label(*self),
    {
        let s = match self {
            DistanceUnit::Millimeter => "millimeter",
            DistanceUnit::Centimeter => "centimeter",
            DistanceUnit::Meter => "meter",
            DistanceUnit::Kilometer => "kilometer",
            DistanceUnit::Inch => "inch",
            DistanceUnit::Feet => "feet",
            DistanceUnit::Mile => "mile",
            DistanceUnit::LightYear => "light year",
            DistanceUnit::AstronomicalUnit => "astronomical unit",
            DistanceUnit::Parsec => "parsec",
        };
        s.to_string()
    }
}

/// The direct rule from one length unit to another, where one is defined.
///
/// The table is deliberately partial and asymmetric: only the listed pairs convert.
pub open spec fn distance_rule(from: DistanceUnit, to: DistanceUnit) -> Option<Transform> {
    match (from, to) {
        (DistanceUnit::Millimeter, DistanceUnit::Centimeter) => Some(ratio(1, 10)),
        (DistanceUnit::Millimeter, DistanceUnit::Meter) => Some(ratio(1, 1_000)),
        (DistanceUnit::Millimeter, DistanceUnit::Kilometer) => Some(ratio(1, 1_000_000)),
        (DistanceUnit::Millimeter, DistanceUnit::Inch) => Some(ratio(10, 254)),
        (DistanceUnit::Centimeter, DistanceUnit::Millimeter) => Some(ratio(10, 1)),
        (DistanceUnit::Centimeter, DistanceUnit::Meter) => Some(ratio(1, 100)),
        (DistanceUnit::Centimeter, DistanceUnit::Kilometer) => Some(ratio(1, 100_000)),
        (DistanceUnit::Meter, DistanceUnit::Millimeter) => Some(ratio(1_000, 1)),
        (DistanceUnit::Meter, DistanceUnit::Centimeter) => Some(ratio(100, 1)),
        (DistanceUnit::Meter, DistanceUnit::Kilometer) => Some(ratio(1, 1_000)),
        (DistanceUnit::Meter, DistanceUnit::Feet) => Some(ratio(10_000, 3_048)),
        (DistanceUnit::Kilometer, DistanceUnit::Millimeter) => Some(ratio(1_000_000, 1)),
        (DistanceUnit::Kilometer, DistanceUnit::Centimeter) => Some(ratio(100_000, 1)),
        (DistanceUnit::Kilometer, DistanceUnit::Meter) => Some(ratio(1_000, 1)),
        (DistanceUnit::Kilometer, DistanceUnit::Mile) => Some(ratio(1_000_000, 1_609_344)),
        (DistanceUnit::Kilometer, DistanceUnit::AstronomicalUnit) => Some(
            ratio(6_685, 1_000_000_000_000),
        ),
        (DistanceUnit::Inch, DistanceUnit::Millimeter) => Some(ratio(254, 10)),
        (DistanceUnit::Feet, DistanceUnit::Meter) => Some(ratio(3_048, 10_000)),
        (DistanceUnit::Mile, DistanceUnit::Kilometer) => Some(ratio(1_609_344, 1_000_000)),
        (DistanceUnit::Mile, DistanceUnit::LightYear) => Some(ratio(1, 5_879_000_000_000)),
        (DistanceUnit::Mile, DistanceUnit::AstronomicalUnit) => Some(ratio(1, 92_900_000)),
        (DistanceUnit::LightYear, DistanceUnit::Mile) => Some(ratio(5_879_000_000_000, 1)),
        (DistanceUnit::LightYear, DistanceUnit::Kilometer) => Some(ratio(9_461_000_000_000, 1)),
        (DistanceUnit::LightYear, DistanceUnit::Parsec) => Some(ratio(3_066, 10_000)),
        (DistanceUnit::LightYear, DistanceUnit::AstronomicalUnit) => Some(ratio(63_241, 1)),
        (DistanceUnit::AstronomicalUnit, DistanceUnit::Mile) => Some(ratio(92_900_000, 1)),
        (DistanceUnit::AstronomicalUnit, DistanceUnit::Kilometer) => Some(ratio(149_600_000, 1)),
        (DistanceUnit::AstronomicalUnit, DistanceUnit::Parsec) => Some(
            ratio(4_848, 1_000_000_000),
        ),
        (DistanceUnit::AstronomicalUnit, DistanceUnit::LightYear) => Some(
            ratio(1_581, 100_000_000),
        ),
        (DistanceUnit::Parsec, DistanceUnit::Kilometer) => Some(ratio(30_860_000_000_000, 1)),
        (DistanceUnit::Parsec, DistanceUnit::Mile) => Some(ratio(19_170_000_000_000, 1)),
        (DistanceUnit::Parsec, DistanceUnit::AstronomicalUnit) => Some(ratio(206_300, 1)),
        (DistanceUnit::Parsec, DistanceUnit::LightYear) => Some(ratio(3_261_564, 1_000_000)),
        _ => None,
    }
}

/// Looks up the direct rule from `from` to `to`.
pub fn distance_rule_of(from: DistanceUnit, to: DistanceUnit) -> (r: Option<Transform>)
    ensures
        r == distance_rule(from, to),
        r matches Some(t) ==> t.wf(),
{
    match (from, to) {
        (DistanceUnit::Millimeter, DistanceUnit::Centimeter) => Some(Transform::ratio(1, 10)),
        (DistanceUnit::Millimeter, DistanceUnit::Meter) => Some(Transform::ratio(1, 1_000)),
        (DistanceUnit::Millimeter, DistanceUnit::Kilometer) => Some(
            Transform::ratio(1, 1_000_000),
        ),
        (DistanceUnit::Millimeter, DistanceUnit::Inch) => Some(Transform::ratio(10, 254)),
        (DistanceUnit::Centimeter, DistanceUnit::Millimeter) => Some(Transform::ratio(10, 1)),
        (DistanceUnit::Centimeter, DistanceUnit::Meter) => Some(Transform::ratio(1, 100)),
        (DistanceUnit::Centimeter, DistanceUnit::Kilometer) => Some(
            Transform::ratio(1, 100_000),
        ),
        (DistanceUnit::Meter, DistanceUnit::Millimeter) => Some(Transform::ratio(1_000, 1)),
        (DistanceUnit::Meter, DistanceUnit::Centimeter) => Some(Transform::ratio(100, 1)),
        (DistanceUnit::Meter, DistanceUnit::Kilometer) => Some(Transform::ratio(1, 1_000)),
        (DistanceUnit::Meter, DistanceUnit::Feet) => Some(Transform::ratio(10_000, 3_048)),
        (DistanceUnit::Kilometer, DistanceUnit::Millimeter) => Some(
            Transform::ratio(1_000_000, 1),
        ),
        (DistanceUnit::Kilometer, DistanceUnit::Centimeter) => Some(
            Transform::ratio(100_000, 1),
        ),
        (DistanceUnit::Kilometer, DistanceUnit::Meter) => Some(Transform::ratio(1_000, 1)),
        (DistanceUnit::Kilometer, DistanceUnit::Mile) => Some(
            Transform::ratio(1_000_000, 1_609_344),
        ),
        (DistanceUnit::Kilometer, DistanceUnit::AstronomicalUnit) => Some(
            Transform::ratio(6_685, 1_000_000_000_000),
        ),
        (DistanceUnit::Inch, DistanceUnit::Millimeter) => Some(Transform::ratio(254, 10)),
        (DistanceUnit::Feet, DistanceUnit::Meter) => Some(Transform::ratio(3_048, 10_000)),
        (DistanceUnit::Mile, DistanceUnit::Kilometer) => Some(
            Transform::ratio(1_609_344, 1_000_000),
        ),
        (DistanceUnit::Mile, DistanceUnit::LightYear) => Some(
            Transform::ratio(1, 5_879_000_000_000),
        ),
        (DistanceUnit::Mile, DistanceUnit::AstronomicalUnit) => Some(
            Transform::ratio(1, 92_900_000),
        ),
        (DistanceUnit::LightYear, DistanceUnit::Mile) => Some(
            Transform::ratio(5_879_000_000_000, 1),
        ),
        (DistanceUnit::LightYear, DistanceUnit::Kilometer) => Some(
            Transform::ratio(9_461_000_000_000, 1),
        ),
        (DistanceUnit::LightYear, DistanceUnit::Parsec) => Some(Transform::ratio(3_066, 10_000)),
        (DistanceUnit::LightYear, DistanceUnit::AstronomicalUnit) => Some(
            Transform::ratio(63_241, 1),
        ),
        (DistanceUnit::AstronomicalUnit, DistanceUnit::Mile) => Some(
            Transform::ratio(92_900_000, 1),
        ),
        (DistanceUnit::AstronomicalUnit, DistanceUnit::Kilometer) => Some(
            Transform::ratio(149_600_000, 1),
        ),
        (DistanceUnit::AstronomicalUnit, DistanceUnit::Parsec) => Some(
            Transform::ratio(4_848, 1_000_000_000),
        ),
        (DistanceUnit::AstronomicalUnit, DistanceUnit::LightYear) => Some(
            Transform::ratio(1_581, 100_000_000),
        ),
        (DistanceUnit::Parsec, DistanceUnit::Kilometer) => Some(
            Transform::ratio(30_860_000_000_000, 1),
        ),
        (DistanceUnit::Parsec, DistanceUnit::Mile) => Some(
            Transform::ratio(19_170_000_000_000, 1),
        ),
        (DistanceUnit::Parsec, DistanceUnit::AstronomicalUnit) => Some(
            Transform::ratio(206_300, 1),
        ),
        (DistanceUnit::Parsec, DistanceUnit::LightYear) => Some(
            Transform::ratio(3_261_564, 1_000_000),
        ),
        _ => None,
    }
}

/// The magnitude in `to` of a length `v` in `from`.
///
/// A zero length is zero in every unit; a unit converts to itself unchanged; any
/// other pair goes through its direct rule, and fails where none is defined.
pub open spec fn distance_conversion(v: int, from: DistanceUnit, to: DistanceUnit) -> Result<
    int,
    ConversionError<DistanceUnit>,
> {
    if v == 0 {
        Ok(0)
    } else if from == to {
        Ok(v)
    } else {
        outcome(distance_rule(from, to), v, from, to)
    }
}

/// Converts the magnitude `v` of a length from `from` to `to`.
pub fn convert_distance(v: i128, from: DistanceUnit, to: DistanceUnit) -> (r: Result<
    i128,
    ConversionError<DistanceUnit>,
>)
    ensures
        widen(r) == distance_conversion(v as int, from, to),
{
    if v == 0 {
        Ok(0)
    } else if from == to {
        Ok(v)
    } else {
        run_rule(distance_rule_of(from, to), v, from, to)
    }
}

/// A length in one of the family's units.
pub enum Distance {
    Millimeter(Millimeter),
    Centimeter(Centimeter),
    Meter(Meter),
    Kilometer(Kilometer),
    Inch(Inch),
    Feet(Feet),
    Mile(Mile),
    LightYear(LightYear),
    AstronomicalUnit(AstronomicalUnit),
    Parsec(Parsec),
}

impl HasConvertableUnit for Distance {
    type Unit = DistanceUnit;

    open spec fn spec_unit(&self) -> DistanceUnit {
        match self {
            Distance::Millimeter(_) => DistanceUnit::Millimeter,
            Distance::Centimeter(_) => DistanceUnit::Centimeter,
            Distance::Meter(_) => DistanceUnit::Meter,
            Distance::Kilometer(_) => DistanceUnit::Kilometer,
            Distance::Inch(_) => DistanceUnit::Inch,
            Distance::Feet(_) => DistanceUnit::Feet,
            Distance::Mile(_) => DistanceUnit::Mile,
            Distance::LightYear(_) => DistanceUnit::LightYear,
            Distance::AstronomicalUnit(_) => DistanceUnit::AstronomicalUnit,
            Distance::Parsec(_) => DistanceUnit::Parsec,
        }
    }

    open spec fn spec_scalar(&self) -> int {
        match self {
            Distance::Millimeter(q) => q@,
            Distance::Centimeter(q) => q@,
            Distance::Meter(q) => q@,
            Distance::Kilometer(q) => q@,
            Distance::Inch(q) => q@,
            Distance::Feet(q) => q@,
            Distance::Mile(q) => q@,
            Distance::LightYear(q) => q@,
            Distance::AstronomicalUnit(q) => q@,
            Distance::Parsec(q) => q@,
        }
    }

    open spec fn conversion(v: int, from: DistanceUnit, to: DistanceUnit) -> Result<
        int,
        ConversionError<DistanceUnit>,
    > {
        distance_conversion(v, from, to)
    }

    fn scalar(&self) -> (r: i128) {
        match self {
            Distance::Millimeter(q) => q.scalar(),
            Distance::Centimeter(q) => q.scalar(),
            Distance::Meter(q) => q.scalar(),
            Distance::Kilometer(q) => q.scalar(),
            Distance::Inch(q) => q.scalar(),
            Distance::Feet(q) => q.scalar(),
            Distance::Mile(q) => q.scalar(),
            Distance::LightYear(q) => q.scalar(),
            Distance::AstronomicalUnit(q) => q.scalar(),
            Distance::Parsec(q) => q.scalar(),
        }
    }

    fn unit(&self) -> (r: DistanceUnit) {
        match self {
            Distance::Millimeter(q) => q.unit(),
            Distance::Centimeter(q) => q.unit(),
            Distance::Meter(q) => q.unit(),
            Distance::Kilometer(q) => q.unit(),
            Distance::Inch(q) => q.unit(),
            Distance::Feet(q) => q.unit(),
            Distance::Mile(q) => q.unit(),
            Distance::LightYear(q) => q.unit(),
            Distance::AstronomicalUnit(q) => q.unit(),
            Distance::Parsec(q) => q.unit(),
        }
    }

    fn convert_scalar(&self, to_unit: &DistanceUnit) -> (r: Result<i128, ConversionError<DistanceUnit>>) {
        match self {
            Distance::Millimeter(q) => q.convert_scalar(to_unit),
            Distance::Centimeter(q) => q.convert_scalar(to_unit),
            Distance::Meter(q) => q.convert_scalar(to_unit),
            Distance::Kilometer(q) => q.convert_scalar(to_unit),
            Distance::Inch(q) => q.convert_scalar(to_unit),
            Distance::Feet(q) => q.convert_scalar(to_unit),
            Distance::Mile(q) => q.convert_scalar(to_unit),
            Distance::LightYear(q) => q.convert_scalar(to_unit),
            Distance::AstronomicalUnit(q) => q.convert_scalar(to_unit),
            Distance::Parsec(q) => q.convert_scalar(to_unit),
        }
    }
}

pub struct DistanceFactory {}

impl DistanceFactory {
    /// Wraps a magnitude in the quantity of `unit`.
    pub fn build(value: i128, unit: DistanceUnit) -> (r: Distance)
        ensures
            r.spec_unit() == unit,
            r.spec_scalar() == value,
    {
        match unit {
            DistanceUnit::Millimeter => Distance::Millimeter(Millimeter::new(value)),
            DistanceUnit::Centimeter => Distance::Centimeter(Centimeter::new(value)),
            DistanceUnit::Meter => Distance::Meter(Meter::new(value)),
            DistanceUnit::Kilometer => Distance::Kilometer(Kilometer::new(value)),
            DistanceUnit::Inch => Distance::Inch(Inch::new(value)),
            DistanceUnit::Feet => Distance::Feet(Feet::new(value)),
            DistanceUnit::Mile => Distance::Mile(Mile::new(value)),
            DistanceUnit::LightYear => Distance::LightYear(LightYear::new(value)),
            DistanceUnit::AstronomicalUnit => Distance::AstronomicalUnit(AstronomicalUnit::new(value)),
            DistanceUnit::Parsec => Distance::Parsec(Parsec::new(value)),
        }
    }
}

/// Holds one length and converts it to other units.
pub struct DistanceConverter {
    distance: Distance,
}

impl View for DistanceConverter {
    type V = Distance;

    closed spec fn view(&self) -> Distance {
        self.distance
    }
}

impl DistanceConverter {
    pub fn new(value: i128, unit: DistanceUnit) -> (r: DistanceConverter)
        ensures
            r@.spec_unit() == unit,
            r@.spec_scalar() == value,
    {
        DistanceConverter { distance: DistanceFactory::build(value, unit) }
    }
}

impl CanConvertUnit for DistanceConverter {
    type Unit = DistanceUnit;

    type Quantity = Distance;

    open spec fn converts_to(
        &self,
        to_unit: DistanceUnit,
        r: Result<Distance, ConversionError<DistanceUnit>>,
    ) -> bool {
        match r {
            Ok(d) => d.spec_unit() == to_unit && distance_conversion(
                self@.spec_scalar(),
                self@.spec_unit(),
                to_unit,
            ) == Ok::<int, ConversionError<DistanceUnit>>(d.spec_scalar()),
            Err(e) => distance_conversion(self@.spec_scalar(), self@.spec_unit(), to_unit)
                == Err::<int, ConversionError<DistanceUnit>>(e),
        }
    }

    /// A new length in `to_unit`, or the error of the scalar conversion.
    fn convert(&self, to_unit: DistanceUnit) -> (r: Result<Distance, ConversionError<DistanceUnit>>) {
        match self.distance.convert_scalar(&to_unit) {
            Ok(v) => Ok(DistanceFactory::build(v, to_unit)),
            Err(e) => Err(e),
        }
    }
}

/// Every length rule is a pure scale; where both directions are defined their
/// rates multiply to within a thousandth of one, and no such rate exceeds 10^13.
proof fn lemma_distance_rates(a: DistanceUnit, b: DistanceUnit)
    ensures
        distance_rule(a, b) matches Some(t) ==> t.pre == 0 && t.post == 0,
        distance_rule(a, b) matches Some(t1) ==> (distance_rule(b, a) matches Some(t2)
            ==> near_inverse_pair(t1, t2)),
        distance_rule(a, b) matches Some(t1) ==> (distance_rule(b, a) matches Some(t2)
            ==> t2.num + t2.den <= 10_000_000_000_000 * t2.den),
{
    match a {
        DistanceUnit::Millimeter => {
            match b {
                DistanceUnit::Millimeter => {},
                DistanceUnit::Centimeter => {},
                DistanceUnit::Meter => {},
                DistanceUnit::Kilometer => {},
                DistanceUnit::Inch => {},
                DistanceUnit::Feet => {},
                DistanceUnit::Mile => {},
                DistanceUnit::LightYear => {},
                DistanceUnit::AstronomicalUnit => {},
                DistanceUnit::Parsec => {},
            }
        },
        DistanceUnit::Centimeter => {
            match b {
                DistanceUnit::Millimeter => {},
                DistanceUnit::Centimeter => {},
                DistanceUnit::Meter => {},
                DistanceUnit::Kilometer => {},
                DistanceUnit::Inch => {},
                DistanceUnit::Feet => {},
                DistanceUnit::Mile => {},
                DistanceUnit::LightYear => {},
                DistanceUnit::AstronomicalUnit => {},
                DistanceUnit::Parsec => {},
            }
        },
        DistanceUnit::Meter => {
            match b {
                DistanceUnit::Millimeter => {},
                DistanceUnit::Centimeter => {},
                DistanceUnit::Meter => {},
                DistanceUnit::Kilometer => {},
                DistanceUnit::Inch => {},
                DistanceUnit::Feet => {},
                DistanceUnit::Mile => {},
                DistanceUnit::LightYear => {},
                DistanceUnit::AstronomicalUnit => {},
                DistanceUnit::Parsec => {},
            }
        },
        DistanceUnit::Kilometer => {
            match b {
                DistanceUnit::Millimeter => {},
                DistanceUnit::Centimeter => {},
                DistanceUnit::Meter => {},
                DistanceUnit::Kilometer => {},
                DistanceUnit::Inch => {},
                DistanceUnit::Feet => {},
                DistanceUnit::Mile => {},
                DistanceUnit::LightYear => {},
                DistanceUnit::AstronomicalUnit => {},
                DistanceUnit::Parsec => {},
            }
        },
        DistanceUnit::Inch => {
            match b {
                DistanceUnit::Millimeter => {},
                DistanceUnit::Centimeter => {},
                DistanceUnit::Meter => {},
                DistanceUnit::Kilometer => {},
                DistanceUnit::Inch => {},
                DistanceUnit::Feet => {},
                DistanceUnit::Mile => {},
                DistanceUnit::LightYear => {},
                DistanceUnit::AstronomicalUnit => {},
                DistanceUnit::Parsec => {},
            }
        },
        DistanceUnit::Feet => {
            match b {
                DistanceUnit::Millimeter => {},
                DistanceUnit::Centimeter => {},
                DistanceUnit::Meter => {},
                DistanceUnit::Kilometer => {},
                DistanceUnit::Inch => {},
                DistanceUnit::Feet => {},
                DistanceUnit::Mile => {},
                DistanceUnit::LightYear => {},
                DistanceUnit::AstronomicalUnit => {},
                DistanceUnit::Parsec => {},
            }
        },
        DistanceUnit::Mile => {
            match b {
                DistanceUnit::Millimeter => {},
                DistanceUnit::Centimeter => {},
                DistanceUnit::Meter => {},
                DistanceUnit::Kilometer => {},
                DistanceUnit::Inch => {},
                DistanceUnit::Feet => {},
                DistanceUnit::Mile => {},
                DistanceUnit::LightYear => {},
                DistanceUnit::AstronomicalUnit => {},
                DistanceUnit::Parsec => {},
            }
        },
        DistanceUnit::LightYear => {
            match b {
                DistanceUnit::Millimeter => {},
                DistanceUnit::Centimeter => {},
                DistanceUnit::Meter => {},
                DistanceUnit::Kilometer => {},
                DistanceUnit::Inch => {},
                DistanceUnit::Feet => {},
                DistanceUnit::Mile => {},
                DistanceUnit::LightYear => {},
                DistanceUnit::AstronomicalUnit => {},
                DistanceUnit::Parsec => {},
            }
        },
        DistanceUnit::AstronomicalUnit => {
            match b {
                DistanceUnit::Millimeter => {},
                DistanceUnit::Centimeter => {},
                DistanceUnit::Meter => {},
                DistanceUnit::Kilometer => {},
                DistanceUnit::Inch => {},
                DistanceUnit::Feet => {},
                DistanceUnit::Mile => {},
                DistanceUnit::LightYear => {},
                DistanceUnit::AstronomicalUnit => {},
                DistanceUnit::Parsec => {},
            }
        },
        DistanceUnit::Parsec => {
            match b {
                DistanceUnit::Millimeter => {},
                DistanceUnit::Centimeter => {},
                DistanceUnit::Meter => {},
                DistanceUnit::Kilometer => {},
                DistanceUnit::Inch => {},
                DistanceUnit::Feet => {},
                DistanceUnit::Mile => {},
                DistanceUnit::LightYear => {},
                DistanceUnit::AstronomicalUnit => {},
                DistanceUnit::Parsec => {},
            }
        },
    }
}

/// A length converts to its own unit unchanged.
pub proof fn lemma_distance_self_conversion(v: int, u: DistanceUnit)
    ensures
        distance_conversion(v, u, u) == Ok::<int, ConversionError<DistanceUnit>>(v),
{
}

/// A zero length is exactly zero in every unit, whether or not a rule is defined.
pub proof fn lemma_distance_zero(from: DistanceUnit, to: DistanceUnit)
    ensures
        distance_conversion(0, from, to) == Ok::<int, ConversionError<DistanceUnit>>(0),
{
}

/// A non-zero length fails to convert along a pair that has no direct rule.
pub proof fn lemma_distance_undefined_pair(v: int, from: DistanceUnit, to: DistanceUnit)
    requires
        v != 0,
        from != to,
        distance_rule(from, to) is None,
    ensures
        distance_conversion(v, from, to) == Err::<int, ConversionError<DistanceUnit>>(
            ConversionError::UnsupportedConversion { from, to },
        ),
{
}

/// Feet have no rule to kilometres, so a non-zero length in feet does not convert.
pub proof fn lemma_feet_to_kilometer_unsupported(v: int)
    requires
        v != 0,
    ensures
        distance_conversion(v, DistanceUnit::Feet, DistanceUnit::Kilometer) == Err::<
            int,
            ConversionError<DistanceUnit>,
        >(ConversionError::UnsupportedConversion { from: DistanceUnit::Feet, to: DistanceUnit::Kilometer }),
{
}

/// Where both directions between two units are defined with exactly reciprocal
/// rates, converting there and back returns to the start within the rounding of
/// the two steps: less than `den / num + 1` steps of the outward rule `t`.
pub proof fn lemma_distance_reciprocal_round_trip(
    v: int,
    a: DistanceUnit,
    b: DistanceUnit,
    w: int,
    back: int,
)
    requires
        distance_rule(a, b) matches Some(t1) && distance_rule(b, a) matches Some(t2)
            && inverse_pair(t1, t2),
        distance_conversion(v, a, b) == Ok::<int, ConversionError<DistanceUnit>>(w),
        distance_conversion(w, b, a) == Ok::<int, ConversionError<DistanceUnit>>(back),
    ensures
        abs_diff(back, v) * distance_rule(a, b)->Some_0.num < distance_rule(a, b)->Some_0.den
            + distance_rule(a, b)->Some_0.num,
{
    let t1 = distance_rule(a, b)->Some_0;
    let t2 = distance_rule(b, a)->Some_0;
    lemma_distance_rates(a, b);
    lemma_distance_trip_images(v, a, b, w, back);
    lemma_round_trip(t1, t2, v);
}

/// The results of a round trip are the images of the two rules.
proof fn lemma_distance_trip_images(v: int, a: DistanceUnit, b: DistanceUnit, w: int, back: int)
    requires
        distance_rule(a, b) is Some,
        distance_rule(b, a) is Some,
        distance_conversion(v, a, b) == Ok::<int, ConversionError<DistanceUnit>>(w),
        distance_conversion(w, b, a) == Ok::<int, ConversionError<DistanceUnit>>(back),
    ensures
        w == distance_rule(a, b)->Some_0.image(v),
        back == distance_rule(b, a)->Some_0.image(w),
{
    let t1 = distance_rule(a, b)->Some_0;
    let t2 = distance_rule(b, a)->Some_0;
    lemma_distance_rates(a, b);
    lemma_distance_rates(b, a);
    assert(a != b);
    if v == 0 {
        assert((0 + t1.pre) * t1.num == 0) by (nonlinear_arith)
            requires
                t1.pre == 0,
        ;
    }
    if w == 0 {
        assert((0 + t2.pre) * t2.num == 0) by (nonlinear_arith)
            requires
                t2.pre == 0,
        ;
    }
}

/// Converting a length to another unit and back, where both directions are
/// defined, returns to the start within a thousandth of its magnitude plus 10^13
/// steps (under 2e-4 of the unit): the rates of each such pair multiply to within
/// a thousandth of one, and are exactly reciprocal for all but the astronomical
/// pairs.
pub proof fn lemma_distance_round_trip(v: int, a: DistanceUnit, b: DistanceUnit, w: int, back: int)
    requires
        a == b || (distance_rule(a, b) is Some && distance_rule(b, a) is Some),
        distance_conversion(v, a, b) == Ok::<int, ConversionError<DistanceUnit>>(w),
        distance_conversion(w, b, a) == Ok::<int, ConversionError<DistanceUnit>>(back),
    ensures
        abs_diff(back, v) * 1000 <= abs_diff(v, 0) + 10_000_000_000_000_000,
{
    if a != b {
        let t1 = distance_rule(a, b)->Some_0;
        let t2 = distance_rule(b, a)->Some_0;
        lemma_distance_rates(a, b);
        lemma_distance_trip_images(v, a, b, w, back);
        lemma_round_trip_near(t1, t2, v);
        let d1 = t1.den as int;
        let n2 = t2.num as int;
        let d2 = t2.den as int;
        let dd = d1 * d2;
        let e = abs_diff(back, v);
        let m = abs_diff(v, 0);
        assert(1000 * (d1 * n2 + dd) <= 10_000_000_000_000_000 * dd) by (nonlinear_arith)
            requires
                n2 + d2 <= 10_000_000_000_000 * d2,
                d1 > 0,
                dd == d1 * d2,
        ;
        assert(e * 1000 <= m + 10_000_000_000_000_000) by (nonlinear_arith)
            requires
                1000 * (e * dd) <= m * dd + 1000 * (d1 * n2 + dd),
                1000 * (d1 * n2 + dd) <= 10_000_000_000_000_000 * dd,
                dd > 0,
        ;
    }
}

} // verus!
