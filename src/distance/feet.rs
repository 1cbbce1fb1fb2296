use vstd::prelude::*;

use super::convert_distance;
use super::distance_conversion;
use super::DistanceUnit;
use crate::rule::ConversionError;
use crate::traits::HasConvertableUnit;

verus! {

/// A length in feet.
///
/// The magnitude counts steps of `1 / SCALE` of the unit.
pub struct Feet {
    value: i128,
}

impl View for Feet {
    type V = int;

    closed spec fn view(&self) -> int {
        self.value as int
    }
}

impl Feet {
    pub fn new(value: i128) -> (r: Feet)
        ensures
            r@ == value,
    {
        Feet { value }
    }
}

impl HasConvertableUnit for Feet {
    type Unit = DistanceUnit;

    open spec fn spec_scalar(&self) -> int {
        self@
    }

    open spec fn spec_unit(&self) -> DistanceUnit {
        DistanceUnit::Feet
    }

    open spec fn conversion(v: int, from: DistanceUnit, to: DistanceUnit) -> Result<
        int,
        ConversionError<DistanceUnit>,
    > {
        distance_conversion(v, from, to)
    }

    fn scalar(&self) -> (r: i128) {
        self.value
    }

    fn unit(&self) -> (r: DistanceUnit) {
        DistanceUnit::Feet
    }

    fn convert_scalar(&self, to_unit: &DistanceUnit) -> (r: Result<i128, ConversionError<DistanceUnit>>) {
        convert_distance(self.value, DistanceUnit::Feet, *to_unit)
    }
}

} // verus!
