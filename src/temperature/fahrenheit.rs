use vstd::prelude::*;

use super::convert_temperature;
use super::temperature_conversion;
use super::TemperatureUnit;
use crate::rule::ConversionError;
use crate::traits::HasConvertableUnit;

verus! {

/// A temperature in degrees Fahrenheit.
///
/// The magnitude counts steps of `1 / SCALE` of the unit.
pub struct Fahrenheit {
    value: i128,
}

impl View for Fahrenheit {
    type V = int;

    closed spec fn view(&self) -> int {
        self.value as int
    }
}

impl Fahrenheit {
    pub fn new(value: i128) -> (r: Fahrenheit)
        ensures
            r@ == value,
    {
        Fahrenheit { value }
    }
}

impl HasConvertableUnit for Fahrenheit {
    type Unit = TemperatureUnit;

    open spec fn spec_scalar(&self) -> int {
        self@
    }

    open spec fn spec_unit(&self) -> TemperatureUnit {
        TemperatureUnit::Fahrenheit
    }

    open spec fn conversion(v: int, from: TemperatureUnit, to: TemperatureUnit) -> Result<
        int,
        ConversionError<TemperatureUnit>,
    > {
        temperature_conversion(v, from, to)
    }

    fn scalar(&self) -> (r: i128) {
        self.value
    }

    fn unit(&self) -> (r: TemperatureUnit) {
        TemperatureUnit::Fahrenheit
    }

    fn convert_scalar(&self, to_unit: &TemperatureUnit) -> (r: Result<i128, ConversionError<TemperatureUnit>>) {
        convert_temperature(self.value, TemperatureUnit::Fahrenheit, *to_unit)
    }
}

} // verus!
