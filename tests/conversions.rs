use uniconv::errors::ValidationError;
use uniconv::formula::{length_formula, temperature_formula, Formula, Offset, Ratio};
use uniconv::number::Number;
use uniconv::units::{Degree, Length, QuantityKind};
use uniconv::validate::{plan_length_conversion, plan_temperature_conversion, validate_result};

fn ratio_value(r: Ratio) -> f64 {
    r.num as f64 / r.den as f64
}

fn shifted(x: f64, o: Option<Offset>) -> f64 {
    match o {
        Some(o) if o.negative => x - ratio_value(o.amount),
        Some(o) => x + ratio_value(o.amount),
        None => x,
    }
}

fn apply(f: Formula, v: f64) -> f64 {
    let mut x = shifted(v, f.pre);
    if let Some(m) = f.mul {
        x = x * ratio_value(m);
    }
    if let Some(d) = f.div {
        x = x / ratio_value(d);
    }
    shifted(x, f.post)
}

fn number(v: f64) -> Number {
    Number::from_bits(v.to_bits())
}

fn length(v: f64, from: Length, to: Length) -> Result<f64, ValidationError> {
    let f = plan_length_conversion(number(v), from, to)?;
    let r = apply(f, v);
    validate_result(number(r), QuantityKind::Length)?;
    Ok(r)
}

fn temperature(v: f64, from: Degree, to: Degree) -> Result<f64, ValidationError> {
    let f = plan_temperature_conversion(number(v), from, to)?;
    let r = apply(f, v);
    validate_result(number(r), QuantityKind::Temperature)?;
    Ok(r)
}

#[test]
fn test_cm_conversions() {
    let inch_result = length(100.0, Length::Centimeter, Length::Inch).unwrap();
    assert!((inch_result - 39.3701).abs() < 0.001);

    assert_eq!(length(100.0, Length::Centimeter, Length::Kilometer).unwrap(), 0.001);

    let miles_result = length(100.0, Length::Centimeter, Length::Miles).unwrap();
    assert!((miles_result - 0.000621371).abs() < 0.000001);
}

#[test]
fn test_inch_conversions() {
    assert_eq!(length(10.0, Length::Inch, Length::Centimeter).unwrap(), 25.4);
    assert_eq!(length(10.0, Length::Inch, Length::Kilometer).unwrap(), 0.000254);

    let miles_result = length(10.0, Length::Inch, Length::Miles).unwrap();
    assert!((miles_result - 0.000157828).abs() < 0.000001);
}

#[test]
fn test_km_conversions() {
    assert_eq!(length(1.0, Length::Kilometer, Length::Centimeter).unwrap(), 100000.0);

    let inch_result = length(1.0, Length::Kilometer, Length::Inch).unwrap();
    assert!((inch_result - 39370.08).abs() < 0.01);

    let miles_result = length(1.0, Length::Kilometer, Length::Miles).unwrap();
    assert!((miles_result - 0.621371).abs() < 0.001);
}

#[test]
fn test_mile_conversions() {
    assert_eq!(length(1.0, Length::Miles, Length::Centimeter).unwrap(), 160934.4);
    assert_eq!(length(1.0, Length::Miles, Length::Inch).unwrap(), 63360.0);
    assert_eq!(length(1.0, Length::Miles, Length::Kilometer).unwrap(), 1.609344);
}

#[test]
fn length_test_invalid_conversions() {
    assert!(length(f64::NAN, Length::Centimeter, Length::Inch).is_err());
    assert!(length(f64::INFINITY, Length::Centimeter, Length::Inch).is_err());
}

#[test]
fn length_test_helper_functions() {
    assert_eq!(length(100000.0, Length::Centimeter, Length::Kilometer).unwrap(), 1.0);
    assert_eq!(length(1.0, Length::Inch, Length::Centimeter).unwrap(), 2.54);
    assert_eq!(length(1.609344, Length::Kilometer, Length::Miles).unwrap(), 1.0);
}

#[test]
fn test_celsius_conversions() {
    assert_eq!(temperature(0.0, Degree::Celsius, Degree::Fahrenheit).unwrap(), 32.0);
    assert_eq!(temperature(0.0, Degree::Celsius, Degree::Kelvin).unwrap(), 273.15);
}

#[test]
fn test_fahrenheit_conversions() {
    assert_eq!(temperature(32.0, Degree::Fahrenheit, Degree::Celsius).unwrap(), 0.0);
    assert_eq!(temperature(32.0, Degree::Fahrenheit, Degree::Kelvin).unwrap(), 273.15);
}

#[test]
fn test_kelvin_conversions() {
    assert_eq!(temperature(273.15, Degree::Kelvin, Degree::Celsius).unwrap(), 0.0);
    let fahrenheit = temperature(273.15, Degree::Kelvin, Degree::Fahrenheit).unwrap();
    assert!((fahrenheit - 32.0).abs() < 1e-10);
}

#[test]
fn temperature_test_helper_functions() {
    assert_eq!(temperature(100.0, Degree::Celsius, Degree::Fahrenheit).unwrap(), 212.0);
    assert_eq!(temperature(212.0, Degree::Fahrenheit, Degree::Celsius).unwrap(), 100.0);
    assert_eq!(temperature(0.0, Degree::Celsius, Degree::Kelvin).unwrap(), 273.15);
}

#[test]
fn temperature_test_invalid_conversions() {
    assert!(temperature(f64::NAN, Degree::Celsius, Degree::Fahrenheit).is_err());
    assert!(temperature(f64::INFINITY, Degree::Celsius, Degree::Fahrenheit).is_err());
}

#[test]
fn identity_returns_input_unchanged() {
    for u in Length::all() {
        assert_eq!(length_formula(u, u), Formula::identity());
        for v in [0.0, 0.1, 123.456789, 1e12] {
            assert_eq!(length(v, u, u).unwrap().to_bits(), v.to_bits());
        }
    }
    for d in Degree::all() {
        assert_eq!(temperature_formula(d, d), Formula::identity());
        for v in [0.1, 300.0, 1e9] {
            assert_eq!(temperature(v, d, d).unwrap().to_bits(), v.to_bits());
        }
    }
}

#[test]
fn round_trip_stays_within_tolerance() {
    for a in Length::all() {
        for b in Length::all() {
            for v in [0.5, 1.0, 250.0, 98765.4321] {
                let there = length(v, a, b).unwrap();
                let back = length(there, b, a).unwrap();
                assert!(((back - v) / v).abs() < 1e-6, "{:?} -> {:?} at {}", a, b, v);
            }
        }
    }
    for a in Degree::all() {
        for b in Degree::all() {
            for v in [300.0, 500.0, 1234.5] {
                let there = temperature(v, a, b).unwrap();
                let back = temperature(there, b, a).unwrap();
                assert!(((back - v) / v).abs() < 1e-9, "{:?} -> {:?} at {}", a, b, v);
            }
        }
    }
}

#[test]
fn reference_constants() {
    assert_eq!(length(1.0, Length::Inch, Length::Centimeter).unwrap(), 2.54);
    assert_eq!(length(1.0, Length::Miles, Length::Kilometer).unwrap(), 1.609344);
    assert_eq!(temperature(0.0, Degree::Celsius, Degree::Fahrenheit).unwrap(), 32.0);
    assert_eq!(temperature(0.0, Degree::Celsius, Degree::Kelvin).unwrap(), 273.15);
    assert_eq!(temperature(273.15, Degree::Kelvin, Degree::Celsius).unwrap(), 0.0);
    assert_eq!(
        length_formula(Length::Inch, Length::Centimeter).mul,
        Some(Ratio { num: 254, den: 100 })
    );
}

#[test]
fn physical_bounds_rejected() {
    assert!(matches!(
        length(-1.0, Length::Centimeter, Length::Inch),
        Err(ValidationError::PhysicallyInvalid(_))
    ));
    assert!(matches!(
        temperature(-0.01, Degree::Kelvin, Degree::Celsius),
        Err(ValidationError::PhysicallyInvalid(_))
    ));
    assert!(matches!(
        temperature(-274.0, Degree::Celsius, Degree::Kelvin),
        Err(ValidationError::PhysicallyInvalid(_))
    ));
    assert!(matches!(
        temperature(-459.68, Degree::Fahrenheit, Degree::Celsius),
        Err(ValidationError::PhysicallyInvalid(_))
    ));
}

#[test]
fn absolute_zero_itself_is_accepted() {
    assert!(temperature(-273.15, Degree::Celsius, Degree::Kelvin).is_ok());
    assert!(temperature(-459.67, Degree::Fahrenheit, Degree::Celsius).is_ok());
    assert!(temperature(0.0, Degree::Kelvin, Degree::Celsius).is_ok());
    assert!(length(0.0, Length::Centimeter, Length::Inch).is_ok());
    assert!(length(-0.0, Length::Centimeter, Length::Inch).is_ok());
}

#[test]
fn magnitude_ceiling_applies_before_any_formula() {
    assert!(matches!(
        plan_length_conversion(number(2e12), Length::Centimeter, Length::Inch),
        Err(ValidationError::ValueTooLarge(_))
    ));
    assert!(matches!(
        plan_length_conversion(number(-2e12), Length::Centimeter, Length::Inch),
        Err(ValidationError::ValueTooLarge(_))
    ));
    assert!(plan_length_conversion(number(1e12), Length::Centimeter, Length::Inch).is_ok());
    assert!(matches!(
        plan_temperature_conversion(number(2e15), Degree::Celsius, Degree::Kelvin),
        Err(ValidationError::ValueTooLarge(_))
    ));
}

#[test]
fn result_ceilings() {
    assert!(matches!(
        temperature(1e13, Degree::Celsius, Degree::Fahrenheit),
        Err(ValidationError::ValueTooLarge(_))
    ));
    assert!(matches!(
        length(1e12, Length::Kilometer, Length::Centimeter),
        Err(ValidationError::ValueTooLarge(_))
    ));
    assert!(length(1e10, Length::Kilometer, Length::Centimeter).is_ok());
}
