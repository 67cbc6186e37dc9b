use vstd::prelude::*;

use crate::text::str_views;

verus! {

/// The physical dimension a unit measures.
#[derive(Debug, Clone, Copy, PartialEq, Eq, Structural)]
pub enum QuantityKind {
    Temperature,
    Length,
}

/// Units of length.
#[derive(Debug, Clone, Copy, PartialEq, Eq, Structural)]
pub enum Length {
    Centimeter,
    Inch,
    Kilometer,
    Miles,
}

/// Units of temperature.
#[derive(Debug, Clone, Copy, PartialEq, Eq, Structural)]
pub enum Degree {
    Celsius,
    Fahrenheit,
    Kelvin,
}

/// A canonical unit of either kind.
#[derive(Debug, Clone, Copy, PartialEq, Eq, Structural)]
pub enum Unit {
    Temperature(Degree),
    Length(Length),
}

pub open spec fn length_label(l: Length) -> Seq<char> {
    match l {
        Length::Centimeter => "cm"@,
        Length::Inch => "in"@,
        Length::Kilometer => "km"@,
        Length::Miles => "mi"@,
    }
}

pub open spec fn degree_label(d: Degree) -> Seq<char> {
    match d {
        Degree::Celsius => "\u{b0}C"@,
        Degree::Fahrenheit => "\u{b0}F"@,
        Degree::Kelvin => "K"@,
    }
}

/// The accepted spellings of a length unit: full name, then abbreviation.
pub open spec fn length_aliases(l: Length) -> Seq<Seq<char>> {
    match l {
        Length::Centimeter => seq!["centimeter"@, "cm"@],
        Length::Inch => seq!["inch"@, "in"@],
        Length::Kilometer => seq!["kilometer"@, "km"@],
        Length::Miles => seq!["miles"@, "mi"@],
    }
}

/// The accepted spellings of a temperature unit: full name, then abbreviation.
pub open spec fn degree_aliases(d: Degree) -> Seq<Seq<char>> {
    match d {
        Degree::Celsius => seq!["celsius"@, "c"@],
        Degree::Fahrenheit => seq!["fahrenheit"@, "f"@],
        Degree::Kelvin => seq!["kelvin"@, "k"@],
    }
}

pub open spec fn unit_kind(u: Unit) -> QuantityKind {
    match u {
        Unit::Temperature(_) => QuantityKind::Temperature,
        Unit::Length(_) => QuantityKind::Length,
    }
}

pub open spec fn unit_label(u: Unit) -> Seq<char> {
    match u {
        Unit::Temperature(d) => degree_label(d),
        Unit::Length(l) => length_label(l),
    }
}

impl Length {
    /// The canonical short label used for display.
    pub fn label(&self) -> (r: String)
        ensures
            r@ == length_label(*self),
    {
        match self {
            Length::Centimeter => "cm".to_owned(),
            Length::Inch => "in".to_owned(),
            Length::Kilometer => "km".to_owned(),
            Length::Miles => "mi".to_owned(),
        }
    }

    /// The spellings accepted for this unit, in any case.
    pub fn aliases(&self) -> (r: Vec<&'static str>)
        ensures
            str_views(r@) == length_aliases(*self),
    {
        let r = match self {
            Length::Centimeter => vec!["centimeter", "cm"],
            Length::Inch => vec!["inch", "in"],
            Length::Kilometer => vec!["kilometer", "km"],
            Length::Miles => vec!["miles", "mi"],
        };
        assert(str_views(r@) =~= length_aliases(*self));
        r
    }

    /// Every unit of length, in display order.
    pub fn all() -> (r: Vec<Length>)
        ensures
            r@ == seq![Length::Centimeter, Length::Inch, Length::Kilometer, Length::Miles],
    {
        vec![Length::Centimeter, Length::Inch, Length::Kilometer, Length::Miles]
    }
}

impl Degree {
    /// The canonical short label used for display.
    pub fn label(&self) -> (r: String)
        ensures
            r@ == degree_label(*self),
    {
        match self {
            Degree::Celsius => "\u{b0}C".to_owned(),
            Degree::Fahrenheit => "\u{b0}F".to_owned(),
            Degree::Kelvin => "K".to_owned(),
        }
    }

    /// The spellings accepted for this unit, in any case.
    pub fn aliases(&self) -> (r: Vec<&'static str>)
        ensures
            str_views(r@) == degree_aliases(*self),
    {
        let r = match self {
            Degree::Celsius => vec!["celsius", "c"],
            Degree::Fahrenheit => vec!["fahrenheit", "f"],
            Degree::Kelvin => vec!["kelvin", "k"],
        };
        assert(str_views(r@) =~= degree_aliases(*self));
        r
    }

    /// Every unit of temperature, in display order.
    pub fn all() -> (r: Vec<Degree>)
        ensures
            r@ == seq![Degree::Celsius, Degree::Fahrenheit, Degree::Kelvin],
    {
        vec![Degree::Celsius, Degree::Fahrenheit, Degree::Kelvin]
    }
}

impl Unit {
    pub fn kind(&self) -> (r: QuantityKind)
        ensures
            r == unit_kind(*self),
    {
        match self {
            Unit::Temperature(_) => QuantityKind::Temperature,
            Unit::Length(_) => QuantityKind::Length,
        }
    }

    pub fn label(&self) -> (r: String)
        ensures
            r@ == unit_label(*self),
    {
        match self {
            Unit::Temperature(d) => d.label(),
            Unit::Length(l) => l.label(),
        }
    }
}

} // verus!
