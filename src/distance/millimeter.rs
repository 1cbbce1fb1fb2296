use vstd::prelude::*;

use super::convert_distance;
use super::distance_conversion;
use super::DistanceUnit;
use crate::rule::ConversionError;
use crate::traits::HasConvertableUnit;

verus! {

/// A length in millimetres.
///
/// The magnitude counts steps of `1 / SCALE` of the unit.
pub struct Millimeter {
    value: i128,
}

impl View for Millimeter {
    type V = int;

    closed spec fn view(&self) -> int {
        self.value as int
    }
}

impl Millimeter {
    pub fn new(value: i128) -> (r: Millimeter)
        ensures
            r@ == value,
    {
        Millimeter { value }
    }
}

impl HasConvertableUnit for Millimeter {
    type Unit = DistanceUnit;

    open spec fn spec_scalar(&self) -> int {
        self@
    }

    open spec fn spec_unit(&self) -> DistanceUnit {
        DistanceUnit::Millimeter
    }

    open spec fn conversion(v: int, from: DistanceUnit, to: DistanceUnit) -> Result<
        int,
        ConversionError<DistanceUnit>,
    > {
        distance_conversion(v, from, to)
    }

    fn scalar(&self) -> (r: i128) {
        self.value
    }

    fn unit(&self) -> (r: DistanceUnit) {
        DistanceUnit::Millimeter
    }

    fn convert_scalar(&self, to_unit: &DistanceUnit) -> (r: Result<i128, ConversionError<DistanceUnit>>) {
        convert_distance(self.value, DistanceUnit::Millimeter, *to_unit)
    }
}

} // verus!
