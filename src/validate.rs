use vstd::prelude::*;

use crate::errors::{joined, ValidationError};
use crate::formula::{
    length_formula,
    length_formula_spec,
    temperature_formula,
    temperature_formula_spec,
    Formula,
};
use crate::number::{below_negative, is_finite, magnitude_above, magnitude_exceeds, Number};
use crate::units::{Degree, Length, QuantityKind};

verus! {

/// Largest magnitude accepted for a length to convert.
pub const LENGTH_INPUT_CEILING: u64 = 1_000_000_000_000;

/// Largest magnitude accepted for a temperature to convert.
pub const TEMPERATURE_INPUT_CEILING: u64 = 1_000_000_000_000_000;

/// Largest magnitude a converted length may have.
pub const LENGTH_RESULT_CEILING: u64 = 1_000_000_000_000_000;

/// Largest magnitude a converted temperature may have.
pub const TEMPERATURE_RESULT_CEILING: u64 = 1_000_000_000_000;

/// -273.15 as the nearest binary64 value: `-(significand * 2^exponent)`.
pub const CELSIUS_ABSOLUTE_ZERO_SIGNIFICAND: u64 = 2402652809016115;

pub const CELSIUS_ABSOLUTE_ZERO_EXPONENT: i32 = -43;

/// -459.67 as the nearest binary64 value: `-(significand * 2^exponent)`.
pub const FAHRENHEIT_ABSOLUTE_ZERO_SIGNIFICAND: u64 = 8086600159036703;

pub const FAHRENHEIT_ABSOLUTE_ZERO_EXPONENT: i32 = -44;

pub open spec fn nan_text(context: Seq<char>) -> Seq<char> {
    context + " cannot be NaN (Not a Number)"@
}

pub open spec fn infinite_text(context: Seq<char>) -> Seq<char> {
    context + " cannot be infinite"@
}

pub open spec fn too_large_text(context: Seq<char>) -> Seq<char> {
    context + " is too large. Please use a smaller number."@
}

pub open spec fn negative_length_text() -> Seq<char> {
    "Length cannot be negative. Please provide a positive value."@
}

pub open spec fn below_absolute_zero_text(unit: Degree) -> Seq<char> {
    match unit {
        Degree::Kelvin => "Kelvin temperature cannot be negative. Minimum is 0 K (absolute zero)."@,
        Degree::Celsius => "Celsius temperature cannot be below absolute zero (-273.15\u{b0}C)."@,
        Degree::Fahrenheit => "Fahrenheit temperature cannot be below absolute zero (-459.67\u{b0}F)."@,
    }
}

/// Absolute zero in `unit`, negated, as `(significand, exponent)` of a binary64 value.
pub open spec fn absolute_zero(unit: Degree) -> (nat, int) {
    match unit {
        Degree::Kelvin => (0, 0),
        Degree::Celsius => (
            CELSIUS_ABSOLUTE_ZERO_SIGNIFICAND as nat,
            CELSIUS_ABSOLUTE_ZERO_EXPONENT as int,
        ),
        Degree::Fahrenheit => (
            FAHRENHEIT_ABSOLUTE_ZERO_SIGNIFICAND as nat,
            FAHRENHEIT_ABSOLUTE_ZERO_EXPONENT as int,
        ),
    }
}

pub open spec fn below_absolute_zero(n: Number, unit: Degree) -> bool {
    below_negative(n, absolute_zero(unit).0, absolute_zero(unit).1)
}

pub open spec fn result_ceiling(kind: QuantityKind) -> nat {
    match kind {
        QuantityKind::Length => LENGTH_RESULT_CEILING as nat,
        QuantityKind::Temperature => TEMPERATURE_RESULT_CEILING as nat,
    }
}

/// A finite value whose magnitude is at most `ceiling`.
pub open spec fn numeric_ok(n: Number, ceiling: nat) -> bool {
    is_finite(n) && !magnitude_above(n, ceiling, 0)
}

/// `r` is what the numeric checks owe for `n`: not a number, then infinite,
/// then too large, else `n` itself.
pub open spec fn numeric_verdict(
    r: Result<Number, ValidationError>,
    n: Number,
    context: Seq<char>,
    ceiling: nat,
) -> bool {
    match n {
        Number::NotANumber => r matches Err(ValidationError::InvalidNumber(m)) && m@ == nan_text(
            context,
        ),
        Number::Infinite { .. } => r matches Err(ValidationError::InvalidNumber(m)) && m@
            == infinite_text(context),
        Number::Finite { .. } => if magnitude_above(n, ceiling, 0) {
            r matches Err(ValidationError::ValueTooLarge(m)) && m@ == too_large_text(context)
        } else {
            r == Ok::<Number, ValidationError>(n)
        },
    }
}

pub open spec fn length_input_ok(n: Number) -> bool {
    numeric_ok(n, LENGTH_INPUT_CEILING as nat) && !below_negative(n, 0, 0)
}

/// `r` is what the checks on a length to convert owe for `n`.
pub open spec fn length_input_verdict(r: Result<Number, ValidationError>, n: Number) -> bool {
    if !numeric_ok(n, LENGTH_INPUT_CEILING as nat) {
        numeric_verdict(r, n, "Length value"@, LENGTH_INPUT_CEILING as nat)
    } else if below_negative(n, 0, 0) {
        r matches Err(ValidationError::PhysicallyInvalid(m)) && m@ == negative_length_text()
    } else {
        r == Ok::<Number, ValidationError>(n)
    }
}

pub open spec fn temperature_input_ok(n: Number, unit: Degree) -> bool {
    numeric_ok(n, TEMPERATURE_INPUT_CEILING as nat) && !below_absolute_zero(n, unit)
}

/// `r` is what the checks on a temperature to convert owe for `n` in `unit`.
pub open spec fn temperature_input_verdict(
    r: Result<Number, ValidationError>,
    n: Number,
    unit: Degree,
) -> bool {
    if !numeric_ok(n, TEMPERATURE_INPUT_CEILING as nat) {
        numeric_verdict(r, n, "Temperature value"@, TEMPERATURE_INPUT_CEILING as nat)
    } else if below_absolute_zero(n, unit) {
        r matches Err(ValidationError::PhysicallyInvalid(m)) && m@ == below_absolute_zero_text(
            unit,
        )
    } else {
        r == Ok::<Number, ValidationError>(n)
    }
}

/// Checks, in order, that `value` is a number, is finite, and has a magnitude
/// of at most `ceiling`; `context` names the value in the message.
pub fn validate_numeric_input(value: Number, context: &str, ceiling: u64) -> (r: Result<
    Number,
    ValidationError,
>)
    ensures
        numeric_verdict(r, value, context@, ceiling as nat),
{
    match value {
        Number::NotANumber => Err(
            ValidationError::InvalidNumber(
                joined(context, " cannot be NaN (Not a Number)"),
            ),
        ),
        Number::Infinite { .. } => Err(
            ValidationError::InvalidNumber(joined(context, " cannot be infinite")),
        ),
        Number::Finite { significand, exponent, .. } => {
            if magnitude_exceeds(significand, exponent, ceiling, 0) {
                Err(
                    ValidationError::ValueTooLarge(
                        joined(context, " is too large. Please use a smaller number."),
                    ),
                )
            } else {
                Ok(value)
            }
        },
    }
}

/// Checks a length before conversion: the numeric checks, then that it is
/// not negative.
pub fn validate_length_input(value: Number) -> (r: Result<Number, ValidationError>)
    ensures
        length_input_verdict(r, value),
        r is Ok <==> length_input_ok(value),
{
    match validate_numeric_input(value, "Length value", LENGTH_INPUT_CEILING) {
        Err(e) => Err(e),
        Ok(_) => {
            let negative = match value {
                Number::Finite { negative, significand, exponent } => negative
                    && magnitude_exceeds(significand, exponent, 0, 0),
                _ => false,
            };
            if negative {
                Err(
                    ValidationError::PhysicallyInvalid(
                        "Length cannot be negative. Please provide a positive value.".to_owned(),
                    ),
                )
            } else {
                Ok(value)
            }
        },
    }
}

fn absolute_zero_of(unit: Degree) -> (r: (u64, i32))
    ensures
        r.0 as nat == absolute_zero(unit).0,
        r.1 as int == absolute_zero(unit).1,
{
    match unit {
        Degree::Kelvin => (0, 0),
        Degree::Celsius => (CELSIUS_ABSOLUTE_ZERO_SIGNIFICAND, CELSIUS_ABSOLUTE_ZERO_EXPONENT),
        Degree::Fahrenheit => (
            FAHRENHEIT_ABSOLUTE_ZERO_SIGNIFICAND,
            FAHRENHEIT_ABSOLUTE_ZERO_EXPONENT,
        ),
    }
}

fn below_absolute_zero_message(unit: Degree) -> (r: String)
    ensures
        r@ == below_absolute_zero_text(unit),
{
    match unit {
        Degree::Kelvin => "Kelvin temperature cannot be negative. Minimum is 0 K (absolute zero).".to_owned(),
        Degree::Celsius => "Celsius temperature cannot be below absolute zero (-273.15\u{b0}C).".to_owned(),
        Degree::Fahrenheit => "Fahrenheit temperature cannot be below absolute zero (-459.67\u{b0}F).".to_owned(),
    }
}

/// Checks a temperature before conversion: the numeric checks, then that it
/// is not below absolute zero for its unit.
pub fn validate_temperature_input(value: Number, unit: Degree) -> (r: Result<
    Number,
    ValidationError,
>)
    ensures
        temperature_input_verdict(r, value, unit),
        r is Ok <==> temperature_input_ok(value, unit),
{
    match validate_numeric_input(value, "Temperature value", TEMPERATURE_INPUT_CEILING) {
        Err(e) => Err(e),
        Ok(_) => {
            let (tm, te) = absolute_zero_of(unit);
            let below = match value {
                Number::Finite { negative, significand, exponent } => negative
                    && magnitude_exceeds(significand, exponent, tm, te),
                _ => false,
            };
            if below {
                Err(ValidationError::PhysicallyInvalid(below_absolute_zero_message(unit)))
            } else {
                Ok(value)
            }
        },
    }
}

/// Checks a converted value of the given kind: the numeric checks, with the
/// kind's ceiling for results.
pub fn validate_result(value: Number, kind: QuantityKind) -> (r: Result<Number, ValidationError>)
    ensures
        numeric_verdict(r, value, "Conversion result"@, result_ceiling(kind)),
{
    let ceiling = match kind {
        QuantityKind::Length => LENGTH_RESULT_CEILING,
        QuantityKind::Temperature => TEMPERATURE_RESULT_CEILING,
    };
    validate_numeric_input(value, "Conversion result", ceiling)
}

/// Validates a length to convert and, if it passes, gives the formula to
/// apply; no formula is given for a rejected value.
pub fn plan_length_conversion(value: Number, from: Length, to: Length) -> (r: Result<
    Formula,
    ValidationError,
>)
    ensures
        match r {
            Ok(f) => length_input_ok(value) && f == length_formula_spec(from, to),
            Err(e) => !length_input_ok(value) && length_input_verdict(
                Err::<Number, ValidationError>(e),
                value,
            ),
        },
{
    match validate_length_input(value) {
        Ok(_) => Ok(length_formula(from, to)),
        Err(e) => Err(e),
    }
}

/// Validates a temperature to convert and, if it passes, gives the formula to
/// apply; no formula is given for a rejected value.
pub fn plan_temperature_conversion(value: Number, from: Degree, to: Degree) -> (r: Result<
    Formula,
    ValidationError,
>)
    ensures
        match r {
            Ok(f) => temperature_input_ok(value, from) && f == temperature_formula_spec(from, to),
            Err(e) => !temperature_input_ok(value, from) && temperature_input_verdict(
                Err::<Number, ValidationError>(e),
                value,
                from,
            ),
        },
{
    match validate_temperature_input(value, from) {
        Ok(_) => Ok(temperature_formula(from, to)),
        Err(e) => Err(e),
    }
}

/// A value that is not a finite number is rejected as an invalid number, by
/// every check and whatever the context label or ceiling.
pub proof fn lemma_non_finite_rejected(
    r: Result<Number, ValidationError>,
    n: Number,
    context: Seq<char>,
    ceiling: nat,
    unit: Degree,
)
    requires
        !is_finite(n),
    ensures
        numeric_verdict(r, n, context, ceiling) ==> r matches Err(
            ValidationError::InvalidNumber(_),
        ),
        length_input_verdict(r, n) ==> r matches Err(ValidationError::InvalidNumber(_)),
        temperature_input_verdict(r, n, unit) ==> r matches Err(
            ValidationError::InvalidNumber(_),
        ),
{
}

} // verus!
