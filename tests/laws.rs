use ast_utils::angular::AngularConverter;
use ast_utils::angular::AngularUnit;
use ast_utils::angular::InvalidComponentValue;
use ast_utils::angular::Radian;
use ast_utils::angular::DMS;
use ast_utils::angular::HMS;
use ast_utils::angular::PI_STEPS;
use ast_utils::distance::DistanceConverter;
use ast_utils::distance::DistanceUnit;
use ast_utils::distance::Feet;
use ast_utils::distance::Inch;
use ast_utils::distance::Millimeter;
use ast_utils::distance::Parsec;
use ast_utils::rule::ConversionError;
use ast_utils::rule::SCALE;
use ast_utils::traits::CanConvertUnit;
use ast_utils::traits::HasConvertableUnit;
use ast_utils::temperature::Celsius;
use ast_utils::temperature::Fahrenheit;
use ast_utils::temperature::Kelvin;
use ast_utils::temperature::TemperatureConverter;
use ast_utils::temperature::TemperatureUnit;
use ast_utils::temperature::KELVIN_AT_FREEZING;
use ast_utils::traits::MetricScale;

const ALL_DISTANCES: [DistanceUnit; 10] = [
    DistanceUnit::Millimeter,
    DistanceUnit::Centimeter,
    DistanceUnit::Meter,
    DistanceUnit::Kilometer,
    DistanceUnit::Inch,
    DistanceUnit::Feet,
    DistanceUnit::Mile,
    DistanceUnit::LightYear,
    DistanceUnit::AstronomicalUnit,
    DistanceUnit::Parsec,
];

#[test]
fn self_conversion_is_exact_in_every_family() {
    let v: i128 = 123_456_789_012_345_678_901;
    for u in ALL_DISTANCES {
        let res = DistanceConverter::new(v, u).convert(u).unwrap();
        assert_eq!(v, res.scalar());
        assert_eq!(u, res.unit());
    }
    for u in [TemperatureUnit::Celsius, TemperatureUnit::Fahrenheit, TemperatureUnit::Kelvin] {
        let res = TemperatureConverter::new(-v, u).convert(u).unwrap();
        assert_eq!(-v, res.scalar());
    }
    assert_eq!(Ok(v), Radian::new(v).convert_scalar(&AngularUnit::Radian));
    let dms = DMS::new(-12, 34, 56).unwrap();
    assert_eq!(Ok(dms.scalar()), dms.convert_scalar(&AngularUnit::DMS));
    let hms = HMS::new(5, 6, 7).unwrap();
    assert_eq!(Ok(hms.scalar()), hms.convert_scalar(&AngularUnit::HMS));
}

#[test]
fn zero_length_is_zero_in_every_unit() {
    for from in ALL_DISTANCES {
        for to in ALL_DISTANCES {
            let res = DistanceConverter::new(0, from).convert(to).unwrap();
            assert_eq!(0, res.scalar());
            assert_eq!(to, res.unit());
        }
    }
}

#[test]
fn negative_decimal_keeps_its_sign_apart() {
    let dms = DMS::from_decimal(-27_450_036_000_000_000);
    assert!(dms.is_negative());
    assert_eq!((0, 30, 30), dms.to_tuple());
    let positive = DMS::from_decimal(27_450_036_000_000_000);
    assert!(!positive.is_negative());
    assert_eq!((0, 30, 30), positive.to_tuple());
    let hms = HMS::from_decimal(-2 * SCALE - SCALE / 4);
    assert!(hms.is_negative());
    assert_eq!((-2, 15, 0), hms.to_tuple());
    assert_eq!(-2 * SCALE - SCALE / 4, hms.to_decimal());
}

#[test]
fn known_fixed_points_are_exact() {
    let half_turn = DMS::new(180, 0, 0).unwrap().convert_scalar(&AngularUnit::Radian);
    assert_eq!(Ok(PI_STEPS), half_turn);

    let hms = HMS::from_decimal(12_508_334 * SCALE / 1_000_000);
    assert_eq!((12, 30, 30), hms.to_tuple());
    let degrees = HMS::new(12, 30, 30).unwrap().convert_scalar(&AngularUnit::DMS);
    assert_eq!(Ok(187_625 * SCALE / 1_000), degrees);

    let c = Celsius::new(0);
    assert_eq!(Ok(KELVIN_AT_FREEZING), c.convert_scalar(&TemperatureUnit::Kelvin));
    assert_eq!(Ok(27_315 * SCALE / 100), c.convert_scalar(&TemperatureUnit::Kelvin));
    let boiling = Celsius::new(100 * SCALE).convert_scalar(&TemperatureUnit::Fahrenheit);
    assert_eq!(Ok(212 * SCALE), boiling);
    let f = Fahrenheit::new(0).convert_scalar(&TemperatureUnit::Kelvin);
    assert_eq!(Ok(13_790_100_000_000_000_000), f);

    let inches = Millimeter::new(5 * SCALE).convert_scalar(&DistanceUnit::Inch).unwrap();
    assert_eq!(5 * SCALE * 10 / 254, inches);
    assert_eq!(10_629_921_259_842_519, inches);

    let conv = DistanceConverter::new(SCALE, DistanceUnit::AstronomicalUnit);
    let km = conv.convert(DistanceUnit::Kilometer).unwrap();
    assert_eq!(149_600_000 * SCALE, km.scalar());

    let ly = Parsec::new(SCALE).convert_scalar(&DistanceUnit::LightYear);
    assert_eq!(Ok(3_261_564 * SCALE / 1_000_000), ly);
}

#[test]
fn undefined_pair_fails_with_both_units() {
    let res = Feet::new(SCALE).convert_scalar(&DistanceUnit::Kilometer);
    assert_eq!(
        Err(ConversionError::UnsupportedConversion {
            from: DistanceUnit::Feet,
            to: DistanceUnit::Kilometer
        }),
        res
    );
    let conv = DistanceConverter::new(-7, DistanceUnit::Inch);
    assert!(matches!(
        conv.convert(DistanceUnit::Parsec),
        Err(ConversionError::UnsupportedConversion {
            from: DistanceUnit::Inch,
            to: DistanceUnit::Parsec
        })
    ));
}

#[test]
fn reciprocal_pairs_round_trip_closely() {
    for v in [1_i128, 3 * SCALE / 7, -98_765_432_109_876_543_210, 25 * SCALE] {
        let there = Millimeter::new(v).convert_scalar(&DistanceUnit::Inch).unwrap();
        let back = Inch::new(there).convert_scalar(&DistanceUnit::Millimeter).unwrap();
        assert!((back - v).abs() <= 1_000_000);

        let f = Celsius::new(v).convert_scalar(&TemperatureUnit::Fahrenheit).unwrap();
        let c = Fahrenheit::new(f).convert_scalar(&TemperatureUnit::Celsius).unwrap();
        assert!((c - v).abs() <= 2);

        let k = Fahrenheit::new(v).convert_scalar(&TemperatureUnit::Kelvin).unwrap();
        let back_f = Kelvin::new(k).convert_scalar(&TemperatureUnit::Fahrenheit).unwrap();
        assert!((back_f - v).abs() <= 2);
    }
    let to_rad = ast_utils::angular::convert_angle(
        SCALE * 100,
        AngularUnit::DMS,
        AngularUnit::Radian,
    )
    .unwrap();
    let again = ast_utils::angular::convert_angle(to_rad, AngularUnit::Radian, AngularUnit::DMS)
        .unwrap();
    assert!((again - SCALE * 100).abs() <= 58);
}

#[test]
fn compound_components_out_of_bounds_are_rejected() {
    assert_eq!(Err(InvalidComponentValue::Whole(360)), DMS::new(360, 0, 0).map(|d| d.to_tuple()));
    assert_eq!(Err(InvalidComponentValue::Whole(-360)), DMS::new(-360, 0, 0).map(|d| d.to_tuple()));
    assert_eq!(Err(InvalidComponentValue::Minute(60)), DMS::new(10, 60, 0).map(|d| d.to_tuple()));
    assert_eq!(Err(InvalidComponentValue::Second(60)), DMS::new(10, 0, 60).map(|d| d.to_tuple()));
    assert_eq!(Err(InvalidComponentValue::Whole(24)), HMS::new(24, 0, 0).map(|h| h.to_tuple()));
    assert_eq!(Err(InvalidComponentValue::Minute(75)), HMS::new(-3, 75, 0).map(|h| h.to_tuple()));
    assert_eq!(Ok((359, 59, 59)), DMS::new(359, 59, 59).map(|d| d.to_tuple()));
    assert_eq!(Ok((-23, 59, 59)), HMS::new(-23, 59, 59).map(|h| h.to_tuple()));
}

#[test]
fn results_beyond_the_magnitude_range_are_reported() {
    let huge = i128::MAX / 2;
    assert_eq!(
        Err(ConversionError::OutOfRange {
            from: DistanceUnit::Parsec,
            to: DistanceUnit::Kilometer
        }),
        Parsec::new(huge).convert_scalar(&DistanceUnit::Kilometer)
    );
    assert_eq!(
        Err(ConversionError::OutOfRange {
            from: TemperatureUnit::Celsius,
            to: TemperatureUnit::Kelvin
        }),
        Celsius::new(i128::MAX).convert_scalar(&TemperatureUnit::Kelvin)
    );
}

#[test]
fn radians_wrap_into_one_turn() {
    let res = Radian::new(-PI_STEPS / 2).convert_scalar(&AngularUnit::DMS).unwrap();
    assert!((res - 270 * SCALE).abs() <= 100);
    let hours = Radian::new(5 * PI_STEPS).convert_scalar(&AngularUnit::HMS).unwrap();
    assert_eq!(12 * SCALE, hours);
}

#[test]
fn decimal_degrees_wrap_into_one_turn_when_decomposed() {
    let dms = DMS::from_decimal(400 * SCALE + SCALE / 2);
    assert_eq!((40, 30, 0), dms.to_tuple());
    let hms = HMS::from_decimal(25 * SCALE);
    assert_eq!((1, 0, 0), hms.to_tuple());
}

#[test]
fn degrees_and_hours_carry_exactly() {
    let res = DMS::new(50, 31, 21).unwrap().convert_scalar(&AngularUnit::HMS).unwrap();
    assert_eq!((3 * 3600 + 22 * 60) * SCALE / 3600 + 54 * SCALE / 36_000, res);
    let conv = AngularConverter::new(156 * SCALE + 3 * SCALE / 10, AngularUnit::DMS);
    let hms = conv.convert(AngularUnit::HMS).unwrap();
    assert_eq!(1_042 * SCALE / 100, hms.scalar());
}

#[test]
fn unit_labels() {
    assert_eq!("light year", DistanceUnit::LightYear.label());
    assert_eq!("astronomical unit", DistanceUnit::AstronomicalUnit.label());
    assert_eq!("feet", DistanceUnit::Feet.label());
    assert_eq!("kelvin", TemperatureUnit::Kelvin.label());
    assert_eq!("rad", AngularUnit::Radian.label());
    assert_eq!("dms", AngularUnit::DMS.label());
}

#[test]
fn metric_scale_by_powers_of_ten() {
    assert_eq!(5_000, 5_i128.pow10(3));
    assert_eq!(123, 12_345_i128.pow10(-2));
    assert_eq!(-123, (-12_345_i128).pow10(-2));
    assert_eq!(7, 7_i128.pow10(0));
    assert_eq!(SCALE, (SCALE / 1_000).pow10(3));
}

#[test]
fn astronomical_pairs_round_trip_within_a_thousandth() {
    let pairs = [
        (DistanceUnit::Mile, DistanceUnit::AstronomicalUnit),
        (DistanceUnit::AstronomicalUnit, DistanceUnit::Mile),
        (DistanceUnit::Mile, DistanceUnit::LightYear),
        (DistanceUnit::LightYear, DistanceUnit::Mile),
        (DistanceUnit::Kilometer, DistanceUnit::AstronomicalUnit),
        (DistanceUnit::AstronomicalUnit, DistanceUnit::Kilometer),
        (DistanceUnit::LightYear, DistanceUnit::Parsec),
        (DistanceUnit::Parsec, DistanceUnit::LightYear),
        (DistanceUnit::AstronomicalUnit, DistanceUnit::Parsec),
        (DistanceUnit::Parsec, DistanceUnit::AstronomicalUnit),
        (DistanceUnit::LightYear, DistanceUnit::AstronomicalUnit),
        (DistanceUnit::AstronomicalUnit, DistanceUnit::LightYear),
    ];
    for (a, b) in pairs {
        let v = 7 * SCALE;
        let there = DistanceConverter::new(v, a).convert(b).unwrap();
        let back = DistanceConverter::new(there.scalar(), b).convert(a).unwrap();
        assert!((back.scalar() - v).abs() * 1000 <= v + 10_000_000_000_000_000);
    }
    let au = DistanceConverter::new(SCALE, DistanceUnit::Mile)
        .convert(DistanceUnit::AstronomicalUnit)
        .unwrap();
    assert_eq!(SCALE / 92_900_000, au.scalar());
    let ly = DistanceConverter::new(SCALE, DistanceUnit::Mile)
        .convert(DistanceUnit::LightYear)
        .unwrap();
    assert_eq!(SCALE / 5_879_000_000_000, ly.scalar());
}
