use vstd::prelude::*;

use super::convert_temperature;
use super::temperature_conversion;
use super::TemperatureUnit;
use crate::rule::ConversionError;
use crate::traits::HasConvertableUnit;

verus! {

/// A temperature in degrees Celsius.
///
/// The magnitude counts steps of `1 / SCALE` of the unit.
pub struct Celsius {
    value: i128,
}

impl View for Celsius {
    type V = int;

    closed spec fn view(&self) -> int {
        self.value as int
    }
}

impl Celsius {
    pub fn new(value: i128) -> (r: Celsius)
        ensures
            r@ == value,
    {
        Celsius { value }
    }
}

impl HasConvertableUnit for Celsius {
    type Unit = TemperatureUnit;

    open spec fn spec_scalar(&self) -> int {
        self@
    }

    open spec fn spec_unit(&self) -> TemperatureUnit {
        TemperatureUnit::Celsius
    }

    open spec fn conversion(v: int, from: TemperatureUnit, to: TemperatureUnit) -> Result<
        int,
        ConversionError<TemperatureUnit>,
    > {
        temperature_conversion(v, from, to)
    }

    fn scalar(&self) -> (r: i128) {
        self.value
    }

    fn unit(&self) -> (r: TemperatureUnit) {
        TemperatureUnit::Celsius
    }

    fn convert_scalar(&self, to_unit: &TemperatureUnit) -> (r: Result<i128, ConversionError<TemperatureUnit>>) {
        convert_temperature(self.value, TemperatureUnit::Celsius, *to_unit)
    }
}

} // verus!
