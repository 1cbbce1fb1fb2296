use vstd::prelude::*;

use super::convert_temperature;
use super::temperature_conversion;
use super::TemperatureUnit;
use crate::rule::ConversionError;
use crate::traits::HasConvertableUnit;

verus! {

/// A temperature in kelvins.
///
/// The magnitude counts steps of `1 / SCALE` of the unit.
pub struct Kelvin {
    value: i128,
}

impl View for Kelvin {
    type V = int;

    closed spec fn view(&self) -> int {
        self.value as int
    }
}

impl Kelvin {
    pub fn new(value: i128) -> (r: Kelvin)
        ensures
            r@ == value,
    {
        Kelvin { value }
    }
}

impl HasConvertableUnit for Kelvin {
    type Unit = TemperatureUnit;

    open spec fn spec_scalar(&self) -> int {
        self@
    }

    open spec fn spec_unit(&self) -> TemperatureUnit {
        TemperatureUnit::Kelvin
    }

    open spec fn conversion(v: int, from: TemperatureUnit, to: TemperatureUnit) -> Result<
        int,
        ConversionError<TemperatureUnit>,
    > {
        temperature_conversion(v, from, to)
    }

    fn scalar(&self) -> (r: i128) {
        self.value
    }

    fn unit(&self) -> (r: TemperatureUnit) {
        TemperatureUnit::Kelvin
    }

    fn convert_scalar(&self, to_unit: &TemperatureUnit) -> (r: Result<i128, ConversionError<TemperatureUnit>>) {
        convert_temperature(self.value, TemperatureUnit::Kelvin, *to_unit)
    }
}

} // verus!
