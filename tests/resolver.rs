use uniconv::distance::levenshtein_distance;
use uniconv::errors::{format_suggestions, ConversionError, UnitParseError};
use uniconv::resolve::{
    find_closest_match, parse_length_unit, parse_temperature_unit, resolve_pair, resolve_unit,
    PairError, UnitPair,
};
use uniconv::units::{Degree, Length, QuantityKind, Unit};

#[test]
fn exact_names_in_any_case() {
    let expected = Ok(Unit::Length(Length::Centimeter));
    assert_eq!(resolve_unit(None, "cm"), expected);
    assert_eq!(resolve_unit(None, "Centimeter"), expected);
    assert_eq!(resolve_unit(None, "CENTIMETER"), expected);
    assert_eq!(resolve_unit(Some(QuantityKind::Length), "CENTIMETER"), expected);
    assert_eq!(parse_temperature_unit("F"), Ok(Degree::Fahrenheit));
    assert_eq!(parse_temperature_unit("Kelvin"), Ok(Degree::Kelvin));
    assert_eq!(parse_length_unit("MI"), Ok(Length::Miles));
    assert_eq!(parse_length_unit("in"), Ok(Length::Inch));
    assert_eq!(resolve_unit(None, "celsius"), Ok(Unit::Temperature(Degree::Celsius)));
}

#[test]
fn hint_restricts_the_kind() {
    assert!(matches!(
        resolve_unit(Some(QuantityKind::Temperature), "cm"),
        Err(UnitParseError::UnknownUnit(_, _))
    ));
    assert!(matches!(
        resolve_unit(Some(QuantityKind::Length), "kelvin"),
        Err(UnitParseError::UnknownUnit(_, _))
    ));
}

#[test]
fn typo_gets_a_suggestion() {
    assert_eq!(
        parse_length_unit("centimetre"),
        Err(UnitParseError::UnknownUnit(
            "centimetre".to_string(),
            Some("centimeter".to_string())
        ))
    );
    assert_eq!(
        resolve_unit(Some(QuantityKind::Length), "Kilometre"),
        Err(UnitParseError::UnknownUnit(
            "Kilometre".to_string(),
            Some("kilometer".to_string())
        ))
    );
}

#[test]
fn far_text_gets_no_suggestion() {
    assert_eq!(
        parse_length_unit("xyz123"),
        Err(UnitParseError::UnknownUnit("xyz123".to_string(), None))
    );
    assert_eq!(
        resolve_unit(None, "xyz123"),
        Err(UnitParseError::UnknownUnit("xyz123".to_string(), None))
    );
}

#[test]
fn empty_input() {
    assert_eq!(resolve_unit(None, ""), Err(UnitParseError::EmptyInput));
    assert_eq!(parse_length_unit(""), Err(UnitParseError::EmptyInput));
    assert_eq!(parse_temperature_unit(""), Err(UnitParseError::EmptyInput));
}

#[test]
fn pair_of_one_kind() {
    assert_eq!(
        resolve_pair("c", "Fahrenheit"),
        Ok(UnitPair::Temperature(Degree::Celsius, Degree::Fahrenheit))
    );
    assert_eq!(
        resolve_pair("cm", "inch"),
        Ok(UnitPair::Length(Length::Centimeter, Length::Inch))
    );
}

#[test]
fn pair_across_kinds() {
    assert_eq!(
        resolve_pair("celsius", "cm"),
        Err(PairError::CrossKind(
            Unit::Temperature(Degree::Celsius),
            Unit::Length(Length::Centimeter)
        ))
    );
    assert_eq!(
        resolve_pair("km", "K"),
        Err(PairError::CrossKind(
            Unit::Length(Length::Kilometer),
            Unit::Temperature(Degree::Kelvin)
        ))
    );
}

#[test]
fn pair_with_unknown_sides() {
    assert_eq!(
        resolve_pair("celsius", "xyz"),
        Err(PairError::Unknown(
            None,
            Some(UnitParseError::UnknownUnit("xyz".to_string(), Some("c".to_string())))
        ))
    );
    assert_eq!(
        resolve_pair("milez", "qqqqqqq"),
        Err(PairError::Unknown(
            Some(UnitParseError::UnknownUnit("milez".to_string(), Some("mi".to_string()))),
            Some(UnitParseError::UnknownUnit("qqqqqqq".to_string(), None))
        ))
    );
}

#[test]
fn edit_distances() {
    assert_eq!(levenshtein_distance("kitten", "sitting"), 3);
    assert_eq!(levenshtein_distance("", "abc"), 3);
    assert_eq!(levenshtein_distance("abc", ""), 3);
    assert_eq!(levenshtein_distance("centimetre", "centimeter"), 2);
    assert_eq!(levenshtein_distance("same", "same"), 0);
    assert_eq!(levenshtein_distance("\u{b0}c", "c"), 1);
}

#[test]
fn closest_match_rules() {
    let units = ["celsius", "c", "fahrenheit", "f", "kelvin", "k"];
    assert_eq!(find_closest_match("CEL", &units), Some("celsius".to_string()));
    assert_eq!(find_closest_match("kelvins", &units), Some("kelvin".to_string()));
    assert_eq!(find_closest_match("xyz", &units), Some("c".to_string()));
    assert_eq!(find_closest_match("qqqqqqq", &units), None);
    let words = ["abcd", "abce", "abcf"];
    assert_eq!(find_closest_match("abxx", &words), Some("abcd".to_string()));
    assert_eq!(find_closest_match("zzzf", &["abcd", "abcf"]), Some("abcf".to_string()));
    let none: [&str; 0] = [];
    assert_eq!(find_closest_match("anything", &none), None);
}

#[test]
fn suggestion_clauses() {
    assert_eq!(format_suggestions(&[]), "");
    assert_eq!(format_suggestions(&["cm"]), "Did you mean 'cm'?");
    assert_eq!(
        format_suggestions(&["cm", "km", "mi"]),
        "Did you mean one of: 'cm', 'km', 'mi'?"
    );
}

#[test]
fn labels_and_messages() {
    assert_eq!(Length::Centimeter.label(), "cm");
    assert_eq!(Length::Miles.label(), "mi");
    assert_eq!(Degree::Celsius.label(), "\u{b0}C");
    assert_eq!(Degree::Kelvin.label(), "K");
    assert_eq!(Unit::Length(Length::Inch).label(), "in");
    assert_eq!(Unit::Temperature(Degree::Fahrenheit).kind(), QuantityKind::Temperature);
    assert_eq!(
        UnitParseError::UnknownUnit("zz".to_string(), None).message(),
        "Unknown unit: 'zz'"
    );
    assert_eq!(UnitParseError::AmbiguousUnit("c".to_string()).message(), "Ambiguous unit: 'c'");
    assert_eq!(UnitParseError::EmptyInput.message(), "Empty unit input");
    assert_eq!(
        ConversionError::Overflow("x".to_string()).message(),
        "Conversion overflow: x"
    );
    assert_eq!(
        ConversionError::InvalidResult("y".to_string()).message(),
        "Invalid conversion result: y"
    );
}

#[test]
fn unit_taxonomy() {
    assert_eq!(Length::Inch.aliases(), vec!["inch", "in"]);
    assert_eq!(Degree::Fahrenheit.aliases(), vec!["fahrenheit", "f"]);
    assert_eq!(Length::all().len(), 4);
    assert_eq!(Degree::all(), vec![Degree::Celsius, Degree::Fahrenheit, Degree::Kelvin]);
    for l in Length::all() {
        for a in l.aliases() {
            assert_eq!(parse_length_unit(a), Ok(l));
            assert_eq!(parse_length_unit(&a.to_uppercase()), Ok(l));
        }
    }
    for d in Degree::all() {
        for a in d.aliases() {
            assert_eq!(parse_temperature_unit(a), Ok(d));
        }
    }
}

#[test]
fn pair_failure_descriptions() {
    let cross = resolve_pair("celsius", "cm").unwrap_err();
    assert_eq!(
        cross.describe("celsius", "cm"),
        "Cannot convert between different unit types. 'celsius' and 'cm' are from different categories (temperature vs length)."
    );
    let unknown = resolve_pair("celsus", "qqqqqqq").unwrap_err();
    assert_eq!(
        unknown.describe("celsus", "qqqqqqq"),
        "Invalid source unit: 'celsus'\nInvalid target unit: 'qqqqqqq'\n\nSupported units:\nTemperature: celsius (c), fahrenheit (f), kelvin (k)\nLength: centimeter (cm), inch (in), kilometer (km), miles (mi)\n\nDid you mean 'c' for the source unit?"
    );
    let one = resolve_pair("km", "milez").unwrap_err();
    assert_eq!(
        one.describe("km", "milez"),
        "Invalid target unit: 'milez'\n\nSupported units:\nTemperature: celsius (c), fahrenheit (f), kelvin (k)\nLength: centimeter (cm), inch (in), kilometer (km), miles (mi)\n\nDid you mean 'mi' for the target unit?"
    );
}
