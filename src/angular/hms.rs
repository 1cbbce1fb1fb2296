use vstd::prelude::*;

use super::angular_conversion;
use super::compose;
use super::convert_angle;
use super::decompose;
use super::sexagesimal;
use super::AngularUnit;
use super::InvalidComponentValue;
use super::STEPS_PER_SECOND;
use crate::rule::ConversionError;
use crate::traits::HasConvertableUnit;

verus! {

/// An angle in hours, minutes and seconds of time.
///
/// The sign is held apart from the components, so an angle between zero and
/// minus one hour keeps it.
pub struct HMS {
    negative: bool,
    hour: u16,
    minute: u8,
    second: u8,
}

impl HMS {
    #[verifier::type_invariant]
    spec fn inv(self) -> bool {
        self.hour < 24 && self.minute < 60 && self.second < 60
    }

    pub closed spec fn spec_negative(self) -> bool {
        self.negative
    }

    pub closed spec fn spec_hour(self) -> int {
        self.hour as int
    }

    pub closed spec fn spec_minute(self) -> int {
        self.minute as int
    }

    pub closed spec fn spec_second(self) -> int {
        self.second as int
    }

    /// Every component lies within its bounds: the hour below 24, the minute
    /// and the second below 60. Each angle of this type satisfies it.
    pub open spec fn in_bounds(self) -> bool {
        self.spec_hour() < 24 && self.spec_minute() < 60 && self.spec_second() < 60
    }

    /// The components as one tuple: sign, hours, minutes, seconds.
    pub open spec fn spec_parts(self) -> (bool, int, int, int) {
        (self.spec_negative(), self.spec_hour(), self.spec_minute(), self.spec_second())
    }

    /// An angle from a signed whole hour and its minutes and seconds.
    ///
    /// Fails on the first component out of bounds: the hour beyond 23
    /// either way, then a minute, then a second beyond 59.
    pub fn new(hour: i8, minute: u8, second: u8) -> (r: Result<HMS, InvalidComponentValue>)
        ensures
            match r {
                Ok(a) => a.in_bounds() && -23 <= hour <= 23 && minute < 60 && second < 60
                    && a.spec_parts() == (hour < 0, if hour < 0 { -hour } else { hour as int }, minute as int, second as int),
                Err(e) => if !(-23 <= hour <= 23) {
                    e == InvalidComponentValue::Whole(hour as i16)
                } else if minute >= 60 {
                    e == InvalidComponentValue::Minute(minute)
                } else {
                    second >= 60 && e == InvalidComponentValue::Second(second)
                },
            },
    {
        if hour < -23 || hour > 23 {
            return Err(InvalidComponentValue::Whole(hour as i16));
        }
        if minute >= 60 {
            return Err(InvalidComponentValue::Minute(minute));
        }
        if second >= 60 {
            return Err(InvalidComponentValue::Second(second));
        }
        let negative = hour < 0;
        let w: u16 = if negative {
            (-hour) as u16
        } else {
            hour as u16
        };
        Ok(HMS { negative, hour: w, minute, second })
    }

    /// The compound form of a decimal hour value (in steps).
    ///
    /// The sign is taken apart; of the magnitude, the whole part reduced modulo
    /// 24 gives the hours, sixty times the fraction gives the minutes, and
    /// sixty times what is left gives the seconds, each truncated.
    pub fn from_decimal(val: i128) -> (r: HMS)
        ensures
            r.in_bounds(),
            r.spec_parts() == sexagesimal(val as int, 24),
            r.spec_hour() < 24,
            r.spec_minute() < 60,
            r.spec_second() < 60,
    {
        let (negative, whole, minute, second) = decompose(val);
        HMS { negative, hour: (whole % 24) as u16, minute, second }
    }

    /// The decimal hours, in steps.
    pub fn to_decimal(&self) -> (r: i128)
        ensures
            self.in_bounds(),
            r == self.spec_scalar(),
    {
        proof {
            use_type_invariant(self);
        }
        let total = (self.hour as i128) * 3600 + (self.minute as i128) * 60 + (self.second as i128);
        let m = total * STEPS_PER_SECOND;
        if self.negative {
            -m
        } else {
            m
        }
    }

    /// The signed hour, the minute and the second. An angle between zero and
    /// minus one hour shows its sign only through `is_negative`.
    pub fn to_tuple(&self) -> (r: (i8, u8, u8))
        ensures
            r.0 == (if self.spec_negative() { -self.spec_hour() } else { self.spec_hour() }),
            r.1 == self.spec_minute(),
            r.2 == self.spec_second(),
            self.in_bounds(),
    {
        proof {
            use_type_invariant(self);
        }
        let w = self.hour as i8;
        if self.negative {
            (-w, self.minute, self.second)
        } else {
            (w, self.minute, self.second)
        }
    }

    pub fn is_negative(&self) -> (r: bool)
        ensures
            r == self.spec_negative(),
            self.in_bounds(),
    {
        proof {
            use_type_invariant(self);
        }
        self.negative
    }
}

impl HasConvertableUnit for HMS {
    type Unit = AngularUnit;

    /// The decimal value, in steps.
    open spec fn spec_scalar(&self) -> int {
        compose(self.spec_negative(), self.spec_hour(), self.spec_minute(), self.spec_second())
    }

    open spec fn spec_unit(&self) -> AngularUnit {
        AngularUnit::HMS
    }

    open spec fn conversion(v: int, from: AngularUnit, to: AngularUnit) -> Result<
        int,
        ConversionError<AngularUnit>,
    > {
        angular_conversion(v, from, to)
    }

    fn scalar(&self) -> (r: i128) {
        self.to_decimal()
    }

    fn unit(&self) -> (r: AngularUnit) {
        AngularUnit::HMS
    }

    fn convert_scalar(&self, to_unit: &AngularUnit) -> (r: Result<i128, ConversionError<AngularUnit>>) {
        convert_angle(self.to_decimal(), AngularUnit::HMS, *to_unit)
    }
}

} // verus!
