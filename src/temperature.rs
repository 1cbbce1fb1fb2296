use vstd::prelude::*;

pub mod celsius;
pub mod fahrenheit;
pub mod kelvin;

pub use celsius::Celsius;
pub use fahrenheit::Fahrenheit;
pub use kelvin::Kelvin;

use crate::rule::abs_diff;
use crate::rule::inverse_pair;
use crate::rule::lemma_round_trip;
use crate::rule::outcome;
use crate::rule::run_rule;
use crate::rule::widen;
use crate::rule::ConversionError;
use crate::rule::Transform;
use crate::traits::CanConvertUnit;
use crate::traits::HasConvertableUnit;

verus! {

/// 32 degrees, in steps: water freezes at 32 °F.
pub const FAHRENHEIT_AT_FREEZING: i128 = 1_728_000_000_000_000_000;

/// 273.15 degrees, in steps: water freezes at 273.15 K.
pub const KELVIN_AT_FREEZING: i128 = 14_750_100_000_000_000_000;

/// 459.67 degrees, in steps: absolute zero lies at -459.67 °F.
pub const RANKINE_OFFSET: i128 = 24_822_180_000_000_000_000;

#[derive(Clone, Copy, Debug, PartialEq, Eq, Structural)]
pub enum TemperatureUnit {
    Celsius,
    Fahrenheit,
    Kelvin,
}

pub open spec fn temperature_label(u: TemperatureUnit) -> Seq<char> {
    match u {
        TemperatureUnit::Celsius => "celsius"@,
        TemperatureUnit::Fahrenheit => "fahrenheit"@,
        TemperatureUnit::Kelvin => "kelvin"@,
    }
}

impl TemperatureUnit {
    /// The unit's printable name.
    pub fn label(&self) -> (r: String)
        ensures
            r@ == temperature_label(*self),
    {
        let s = match self {
            TemperatureUnit::Celsius => "celsius",
            TemperatureUnit::Fahrenheit => "fahrenheit",
            TemperatureUnit::Kelvin => "kelvin",
        };
        s.to_string()
    }
}

/// The affine rule between two distinct temperature units; every pair has one.
pub open spec fn temperature_rule(from: TemperatureUnit, to: TemperatureUnit) -> Option<Transform> {
    match (from, to) {
        (TemperatureUnit::Celsius, TemperatureUnit::Fahrenheit) => Some(
            Transform { pre: 0, num: 9, den: 5, post: FAHRENHEIT_AT_FREEZING },
        ),
        (TemperatureUnit::Celsius, TemperatureUnit::Kelvin) => Some(
            Transform { pre: 0, num: 1, den: 1, post: KELVIN_AT_FREEZING },
        ),
        (TemperatureUnit::Fahrenheit, TemperatureUnit::Celsius) => Some(
            Transform { pre: (-FAHRENHEIT_AT_FREEZING) as i128, num: 5, den: 9, post: 0 },
        ),
        (TemperatureUnit::Fahrenheit, TemperatureUnit::Kelvin) => Some(
            Transform { pre: RANKINE_OFFSET, num: 5, den: 9, post: 0 },
        ),
        (TemperatureUnit::Kelvin, TemperatureUnit::Celsius) => Some(
            Transform { pre: (-KELVIN_AT_FREEZING) as i128, num: 1, den: 1, post: 0 },
        ),
        (TemperatureUnit::Kelvin, TemperatureUnit::Fahrenheit) => Some(
            Transform { pre: 0, num: 9, den: 5, post: (-RANKINE_OFFSET) as i128 },
        ),
        _ => None,
    }
}

/// Looks up the rule from `from` to `to`.
pub fn temperature_rule_of(from: TemperatureUnit, to: TemperatureUnit) -> (r: Option<Transform>)
    ensures
        r == temperature_rule(from, to),
        r matches Some(t) ==> t.wf(),
{
    match (from, to) {
        (TemperatureUnit::Celsius, TemperatureUnit::Fahrenheit) => Some(
            Transform { pre: 0, num: 9, den: 5, post: FAHRENHEIT_AT_FREEZING },
        ),
        (TemperatureUnit::Celsius, TemperatureUnit::Kelvin) => Some(
            Transform { pre: 0, num: 1, den: 1, post: KELVIN_AT_FREEZING },
        ),
        (TemperatureUnit::Fahrenheit, TemperatureUnit::Celsius) => Some(
            Transform { pre: (-FAHRENHEIT_AT_FREEZING) as i128, num: 5, den: 9, post: 0 },
        ),
        (TemperatureUnit::Fahrenheit, TemperatureUnit::Kelvin) => Some(
            Transform { pre: RANKINE_OFFSET, num: 5, den: 9, post: 0 },
        ),
        (TemperatureUnit::Kelvin, TemperatureUnit::Celsius) => Some(
            Transform { pre: (-KELVIN_AT_FREEZING) as i128, num: 1, den: 1, post: 0 },
        ),
        (TemperatureUnit::Kelvin, TemperatureUnit::Fahrenheit) => Some(
            Transform { pre: 0, num: 9, den: 5, post: (-RANKINE_OFFSET) as i128 },
        ),
        _ => None,
    }
}

/// The magnitude in `to` of a temperature `v` in `from`.
pub open spec fn temperature_conversion(v: int, from: TemperatureUnit, to: TemperatureUnit) -> Result<
    int,
    ConversionError<TemperatureUnit>,
> {
    if from == to {
        Ok(v)
    } else {
        outcome(temperature_rule(from, to), v, from, to)
    }
}

/// Converts the magnitude `v` of a temperature from `from` to `to`.
pub fn convert_temperature(v: i128, from: TemperatureUnit, to: TemperatureUnit) -> (r: Result<
    i128,
    ConversionError<TemperatureUnit>,
>)
    ensures
        widen(r) == temperature_conversion(v as int, from, to),
{
    if from == to {
        Ok(v)
    } else {
        run_rule(temperature_rule_of(from, to), v, from, to)
    }
}

/// A temperature in one of the family's units.
pub enum Temperature {
    Celsius(Celsius),
    Fahrenheit(Fahrenheit),
    Kelvin(Kelvin),
}

impl HasConvertableUnit for Temperature {
    type Unit = TemperatureUnit;

    open spec fn spec_unit(&self) -> TemperatureUnit {
        match self {
            Temperature::Celsius(_) => TemperatureUnit::Celsius,
            Temperature::Fahrenheit(_) => TemperatureUnit::Fahrenheit,
            Temperature::Kelvin(_) => TemperatureUnit::Kelvin,
        }
    }

    open spec fn spec_scalar(&self) -> int {
        match self {
            Temperature::Celsius(q) => q@,
            Temperature::Fahrenheit(q) => q@,
            Temperature::Kelvin(q) => q@,
        }
    }

    open spec fn conversion(v: int, from: TemperatureUnit, to: TemperatureUnit) -> Result<
        int,
        ConversionError<TemperatureUnit>,
    > {
        temperature_conversion(v, from, to)
    }

    fn scalar(&self) -> (r: i128) {
        match self {
            Temperature::Celsius(q) => q.scalar(),
            Temperature::Fahrenheit(q) => q.scalar(),
            Temperature::Kelvin(q) => q.scalar(),
        }
    }

    fn unit(&self) -> (r: TemperatureUnit) {
        match self {
            Temperature::Celsius(q) => q.unit(),
            Temperature::Fahrenheit(q) => q.unit(),
            Temperature::Kelvin(q) => q.unit(),
        }
    }

    fn convert_scalar(&self, to_unit: &TemperatureUnit) -> (r: Result<i128, ConversionError<TemperatureUnit>>) {
        match self {
            Temperature::Celsius(q) => q.convert_scalar(to_unit),
            Temperature::Fahrenheit(q) => q.convert_scalar(to_unit),
            Temperature::Kelvin(q) => q.convert_scalar(to_unit),
        }
    }
}

pub struct TemperatureFactory {}

impl TemperatureFactory {
    /// Wraps a magnitude in the quantity of `unit`.
    pub fn build(value: i128, unit: TemperatureUnit) -> (r: Temperature)
        ensures
            r.spec_unit() == unit,
            r.spec_scalar() == value,
    {
        match unit {
            TemperatureUnit::Celsius => Temperature::Celsius(Celsius::new(value)),
            TemperatureUnit::Fahrenheit => Temperature::Fahrenheit(Fahrenheit::new(value)),
            TemperatureUnit::Kelvin => Temperature::Kelvin(Kelvin::new(value)),
        }
    }
}

/// Holds one temperature and converts it to other units.
pub struct TemperatureConverter {
    temperature: Temperature,
}

impl View for TemperatureConverter {
    type V = Temperature;

    closed spec fn view(&self) -> Temperature {
        self.temperature
    }
}

impl TemperatureConverter {
    pub fn new(value: i128, unit: TemperatureUnit) -> (r: TemperatureConverter)
        ensures
            r@.spec_unit() == unit,
            r@.spec_scalar() == value,
    {
        TemperatureConverter { temperature: TemperatureFactory::build(value, unit) }
    }
}

impl CanConvertUnit for TemperatureConverter {
    type Unit = TemperatureUnit;

    type Quantity = Temperature;

    open spec fn converts_to(
        &self,
        to_unit: TemperatureUnit,
        r: Result<Temperature, ConversionError<TemperatureUnit>>,
    ) -> bool {
        match r {
            Ok(t) => t.spec_unit() == to_unit && temperature_conversion(
                self@.spec_scalar(),
                self@.spec_unit(),
                to_unit,
            ) == Ok::<int, ConversionError<TemperatureUnit>>(t.spec_scalar()),
            Err(e) => temperature_conversion(self@.spec_scalar(), self@.spec_unit(), to_unit)
                == Err::<int, ConversionError<TemperatureUnit>>(e),
        }
    }

    /// A new temperature in `to_unit`, or the error of the scalar conversion.
    fn convert(&self, to_unit: TemperatureUnit) -> (r: Result<Temperature, ConversionError<TemperatureUnit>>) {
        match self.temperature.convert_scalar(&to_unit) {
            Ok(v) => Ok(TemperatureFactory::build(v, to_unit)),
            Err(e) => Err(e),
        }
    }
}

/// A temperature converts to its own unit unchanged.
pub proof fn lemma_temperature_self_conversion(v: int, u: TemperatureUnit)
    ensures
        temperature_conversion(v, u, u) == Ok::<int, ConversionError<TemperatureUnit>>(v),
{
}

/// Converting a temperature to another unit and back returns to the start within
/// two steps.
pub proof fn lemma_temperature_round_trip(
    v: int,
    a: TemperatureUnit,
    b: TemperatureUnit,
    w: int,
    back: int,
)
    requires
        temperature_conversion(v, a, b) == Ok::<int, ConversionError<TemperatureUnit>>(w),
        temperature_conversion(w, b, a) == Ok::<int, ConversionError<TemperatureUnit>>(back),
    ensures
        abs_diff(back, v) <= 2,
{
    if a != b {
        let t1 = temperature_rule(a, b)->Some_0;
        let t2 = temperature_rule(b, a)->Some_0;
        assert(inverse_pair(t1, t2));
        lemma_round_trip(t1, t2, v);
        let n = t1.num as int;
        let d = t1.den as int;
        let e = abs_diff(back, v);
        assert(d <= 2 * n);
        assert(e <= 2) by (nonlinear_arith)
            requires
                e * n < d + n,
                d <= 2 * n,
                n > 0,
        ;
    }
}

} // verus!
