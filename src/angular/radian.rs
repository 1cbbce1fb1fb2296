use vstd::prelude::*;

use super::convert_angle;
use super::angular_conversion;
use super::AngularUnit;
use crate::rule::ConversionError;
use crate::traits::HasConvertableUnit;

verus! {

/// An angle in radians.
///
/// The magnitude counts steps of `1 / SCALE` of the unit.
pub struct Radian {
    value: i128,
}

impl View for Radian {
    type V = int;

    closed spec fn view(&self) -> int {
        self.value as int
    }
}

impl Radian {
    pub fn new(value: i128) -> (r: Radian)
        ensures
            r@ == value,
    {
        Radian { value }
    }
}

impl HasConvertableUnit for Radian {
    type Unit = AngularUnit;

    open spec fn spec_scalar(&self) -> int {
        self@
    }

    open spec fn spec_unit(&self) -> AngularUnit {
        AngularUnit::Radian
    }

    open spec fn conversion(v: int, from: AngularUnit, to: AngularUnit) -> Result<
        int,
        ConversionError<AngularUnit>,
    > {
        angular_conversion(v, from, to)
    }

    fn scalar(&self) -> (r: i128) {
        self.value
    }

    fn unit(&self) -> (r: AngularUnit) {
        AngularUnit::Radian
    }

    fn convert_scalar(&self, to_unit: &AngularUnit) -> (r: Result<i128, ConversionError<AngularUnit>>) {
        convert_angle(self.value, AngularUnit::Radian, *to_unit)
    }
}

} // verus!
