use ast_utils::angular::AngularConverter;
use ast_utils::angular::AngularUnit;
use ast_utils::angular::Radian;
use ast_utils::angular::DMS;
use ast_utils::angular::HMS;
use ast_utils::angular::PI_STEPS;
use ast_utils::rule::SCALE;
use ast_utils::traits::CanConvertUnit;
use ast_utils::traits::HasConvertableUnit;

const TOLERANCE: f64 = 0.1e-5;

fn fx(v: f64) -> i128 {
    (v * SCALE as f64).round() as i128
}

fn fl(u: i128) -> f64 {
    (u / SCALE) as f64 + (u % SCALE) as f64 / SCALE as f64
}

fn is_close(expected_val: f64, real_val: f64) -> bool {
    (expected_val - real_val).abs() <= TOLERANCE
}

fn pi() -> f64 {
    std::f64::consts::PI
}

#[test]
fn test_angular_converter_from_dms_to_radian() {
    let conv = AngularConverter::new(fx(187.625), AngularUnit::DMS);
    let res = conv.convert(AngularUnit::Radian);

    assert!(res.is_ok());
    let res = res.unwrap();
    assert!(is_close(3.274_674, fl(res.scalar())));
    assert_eq!(AngularUnit::Radian, res.unit());
}

#[test]
fn test_angular_converter_from_radian_to_hms() {
    let conv = AngularConverter::new(fx(3.274_601), AngularUnit::Radian);
    let res = conv.convert(AngularUnit::HMS);

    assert!(res.is_ok());
    let res = res.unwrap();
    assert!(
        is_close(12.507_777, fl(res.scalar())),
        "res was: {}",
        fl(res.scalar())
    );
    assert_eq!(AngularUnit::HMS, res.unit());
}

#[test]
fn test_dms_to_decimal_scalar() {
    let dms = DMS::new(24, 13, 18).unwrap();
    assert!(is_close(24.221_667, fl(dms.scalar())));
}

#[test]
fn test_dms_from_decimal() {
    let dms = DMS::from_decimal(fx(24.221_667));

    assert_eq!((24, 13, 18), dms.to_tuple());
}

#[test]
fn test_dms_to_radian() {
    let res = DMS::new(180, 0, 0).unwrap().convert_scalar(&AngularUnit::Radian);
    assert!(is_close(pi(), fl(res.unwrap())));
}

#[test]
fn test_dms_to_hms() {
    let res = DMS::new(50, 31, 21).unwrap().convert_scalar(&AngularUnit::HMS);
    assert!(is_close(3.368_166_7, fl(res.unwrap())), "res: {:?}", res);
}

#[test]
fn test_hms_from_decimal() {
    let res = HMS::from_decimal(fx(12.508_334));

    assert_eq!((12, 30, 30), res.to_tuple());
}

#[test]
fn test_hms_to_hms() {
    let res = HMS::new(12, 30, 30).unwrap().convert_scalar(&AngularUnit::HMS);

    assert!(is_close(12.508_334, fl(res.unwrap())), "res was {:?}", res);
}

#[test]
fn test_hms_to_radians() {
    let res = HMS::new(12, 0, 0).unwrap().convert_scalar(&AngularUnit::Radian);

    assert!(is_close(pi(), fl(res.unwrap())), "res was {:?}", res);
}

#[test]
fn test_hms_to_dms_decimal() {
    let res = HMS::new(12, 30, 30).unwrap().convert_scalar(&AngularUnit::DMS);

    assert!(is_close(187.625, fl(res.unwrap())), "res was {:?}", res);
}

#[test]
fn test_0radian_to_radian() {
    let res = Radian::new(fx(0.0)).convert_scalar(&AngularUnit::Radian);
    assert!(is_close(0.0, fl(res.unwrap())));
}

#[test]
fn test_1radian_to_degree() {
    let res = Radian::new(fx(1.0)).convert_scalar(&AngularUnit::DMS);

    assert!(is_close(57.295_779_5, fl(res.unwrap())), "res was: {:?}", res);
}

#[test]
fn test_2pi_radians_are_wrapped_to_0_degrees() {
    let res = Radian::new(2 * PI_STEPS).convert_scalar(&AngularUnit::DMS);

    assert!(is_close(0.0, fl(res.unwrap())), "res was: {:?}", res);
}

#[test]
fn test_radians_to_hours() {
    let res = Radian::new(PI_STEPS).convert_scalar(&AngularUnit::HMS);

    assert!(is_close(12.0, fl(res.unwrap())), "res was: {:?}", res);
}
