use vstd::prelude::*;

use super::convert_distance;
use super::distance_conversion;
use super::DistanceUnit;
use crate::rule::ConversionError;
use crate::traits::HasConvertableUnit;

verus! {

/// A length in inches.
///
/// The magnitude counts steps of `1 / SCALE` of the unit.
pub struct Inch {
    value: i128,
}

impl View for Inch {
    type V = int;

    closed spec fn view(&self) -> int {
        self.value as int
    }
}

impl Inch {
    pub fn new(value: i128) -> (r: Inch)
        ensures
            r@ == value,
    {
        Inch { value }
    }
}

impl HasConvertableUnit for Inch {
    type Unit = DistanceUnit;

    open spec fn spec_scalar(&self) -> int {
        self@
    }

    open spec fn spec_unit(&self) -> DistanceUnit {
        DistanceUnit::Inch
    }

    open spec fn conversion(v: int, from: DistanceUnit, to: DistanceUnit) -> Result<
        int,
        ConversionError<DistanceUnit>,
    > {
        distance_conversion(v, from, to)
    }

    fn scalar(&self) -> (r: i128) {
        self.value
    }

    fn unit(&self) -> (r: DistanceUnit) {
        DistanceUnit::Inch
    }

    fn convert_scalar(&self, to_unit: &DistanceUnit) -> (r: Result<i128, ConversionError<DistanceUnit>>) {
        convert_distance(self.value, DistanceUnit::Inch, *to_unit)
    }
}

} // verus!
