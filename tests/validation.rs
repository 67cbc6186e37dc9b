use uniconv::errors::ValidationError;
use uniconv::number::{magnitude_exceeds, Number};
use uniconv::units::{Degree, QuantityKind};
use uniconv::validate::{
    validate_length_input, validate_numeric_input, validate_result, validate_temperature_input,
};

fn number(v: f64) -> Number {
    Number::from_bits(v.to_bits())
}

#[test]
fn decodes_bit_patterns() {
    assert_eq!(
        number(1.0),
        Number::Finite { negative: false, significand: 1 << 52, exponent: -52 }
    );
    assert_eq!(
        number(-2.0),
        Number::Finite { negative: true, significand: 1 << 52, exponent: -51 }
    );
    assert_eq!(
        number(0.0),
        Number::Finite { negative: false, significand: 0, exponent: -1074 }
    );
    assert_eq!(
        number(f64::from_bits(1)),
        Number::Finite { negative: false, significand: 1, exponent: -1074 }
    );
    assert_eq!(number(f64::NAN), Number::NotANumber);
    assert_eq!(number(f64::INFINITY), Number::Infinite { negative: false });
    assert_eq!(number(f64::NEG_INFINITY), Number::Infinite { negative: true });
}

#[test]
fn compares_magnitudes_exactly() {
    assert!(magnitude_exceeds(3, 0, 2, 0));
    assert!(!magnitude_exceeds(2, 0, 2, 0));
    assert!(magnitude_exceeds(1, 1, 1, 0));
    assert!(!magnitude_exceeds(1, -1, 1, 0));
    assert!(magnitude_exceeds(1, 100, u64::MAX, 0));
    assert!(!magnitude_exceeds(u64::MAX, -100, 1, 0));
    assert!(!magnitude_exceeds(0, 500, 0, 0));
    assert!(magnitude_exceeds(1, -1074, 0, 0));
}

#[test]
fn non_finite_rejected_whatever_the_label() {
    for label in ["", "x", "Temperature value"] {
        for v in [f64::NAN, f64::INFINITY, f64::NEG_INFINITY] {
            assert!(matches!(
                validate_numeric_input(number(v), label, 10),
                Err(ValidationError::InvalidNumber(_))
            ));
        }
    }
    assert!(matches!(
        validate_length_input(number(f64::NAN)),
        Err(ValidationError::InvalidNumber(_))
    ));
    assert!(matches!(
        validate_temperature_input(number(f64::NEG_INFINITY), Degree::Kelvin),
        Err(ValidationError::InvalidNumber(_))
    ));
}

#[test]
fn validation_messages() {
    assert_eq!(
        validate_numeric_input(number(f64::NAN), "Length value", 10),
        Err(ValidationError::InvalidNumber(
            "Length value cannot be NaN (Not a Number)".to_string()
        ))
    );
    assert_eq!(
        validate_numeric_input(number(f64::INFINITY), "Result", 10),
        Err(ValidationError::InvalidNumber("Result cannot be infinite".to_string()))
    );
    assert_eq!(
        validate_numeric_input(number(11.0), "v", 10),
        Err(ValidationError::ValueTooLarge(
            "v is too large. Please use a smaller number.".to_string()
        ))
    );
    assert_eq!(validate_numeric_input(number(-10.0), "v", 10), Ok(number(-10.0)));
    assert_eq!(
        validate_length_input(number(-0.5)),
        Err(ValidationError::PhysicallyInvalid(
            "Length cannot be negative. Please provide a positive value.".to_string()
        ))
    );
    assert_eq!(
        validate_temperature_input(number(-300.0), Degree::Celsius),
        Err(ValidationError::PhysicallyInvalid(
            "Celsius temperature cannot be below absolute zero (-273.15\u{b0}C).".to_string()
        ))
    );
    assert_eq!(
        ValidationError::ValueTooLarge("big".to_string()).message(),
        "Value too large: big"
    );
}

#[test]
fn result_validation_by_kind() {
    assert!(validate_result(number(5e14), QuantityKind::Length).is_ok());
    assert!(matches!(
        validate_result(number(5e14), QuantityKind::Temperature),
        Err(ValidationError::ValueTooLarge(_))
    ));
    assert!(matches!(
        validate_result(number(f64::NAN), QuantityKind::Length),
        Err(ValidationError::InvalidNumber(_))
    ));
}
