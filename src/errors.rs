use vstd::prelude::*;
use vstd::string::StringExecFns;

use crate::text::str_views;

verus! {

/// A value that is not a usable measurement.
#[derive(Debug, Clone, PartialEq, Eq)]
pub enum ValidationError {
    InvalidNumber(String),
    PhysicallyInvalid(String),
    ValueTooLarge(String),
}

/// Failures of the conversion formulas themselves.
#[derive(Debug, Clone, PartialEq, Eq)]
pub enum ConversionError {
    Overflow(String),
    Underflow(String),
    PrecisionLoss(String),
    InvalidResult(String),
}

/// A unit name that could not be turned into a canonical unit.
///
/// `UnknownUnit` carries the text as typed and, where one is close enough,
/// a suggested spelling.
#[derive(Debug, Clone, PartialEq, Eq)]
pub enum UnitParseError {
    UnknownUnit(String, Option<String>),
    AmbiguousUnit(String),
    EmptyInput,
}

pub open spec fn validation_message(e: ValidationError) -> Seq<char> {
    match e {
        ValidationError::InvalidNumber(m) => "Invalid number: "@ + m@,
        ValidationError::PhysicallyInvalid(m) => "Physically invalid value: "@ + m@,
        ValidationError::ValueTooLarge(m) => "Value too large: "@ + m@,
    }
}

pub open spec fn conversion_message(e: ConversionError) -> Seq<char> {
    match e {
        ConversionError::Overflow(m) => "Conversion overflow: "@ + m@,
        ConversionError::Underflow(m) => "Conversion underflow: "@ + m@,
        ConversionError::PrecisionLoss(m) => "Precision loss: "@ + m@,
        ConversionError::InvalidResult(m) => "Invalid conversion result: "@ + m@,
    }
}

pub open spec fn parse_message(e: UnitParseError) -> Seq<char> {
    match e {
        UnitParseError::UnknownUnit(u, _) => "Unknown unit: '"@ + u@ + "'"@,
        UnitParseError::AmbiguousUnit(u) => "Ambiguous unit: '"@ + u@ + "'"@,
        UnitParseError::EmptyInput => "Empty unit input"@,
    }
}

/// `head` followed by `tail`, as a new string.
pub(crate) fn joined(head: &str, tail: &str) -> (r: String)
    ensures
        r@ == head@ + tail@,
{
    let mut r = head.to_owned();
    r.append(tail);
    r
}

impl ValidationError {
    /// The human-readable description of the error.
    pub fn message(&self) -> (r: String)
        ensures
            r@ == validation_message(*self),
    {
        match self {
            ValidationError::InvalidNumber(m) => joined("Invalid number: ", m.as_str()),
            ValidationError::PhysicallyInvalid(m) => joined(
                "Physically invalid value: ",
                m.as_str(),
            ),
            ValidationError::ValueTooLarge(m) => joined("Value too large: ", m.as_str()),
        }
    }
}

impl ConversionError {
    /// The human-readable description of the error.
    pub fn message(&self) -> (r: String)
        ensures
            r@ == conversion_message(*self),
    {
        match self {
            ConversionError::Overflow(m) => joined("Conversion overflow: ", m.as_str()),
            ConversionError::Underflow(m) => joined("Conversion underflow: ", m.as_str()),
            ConversionError::PrecisionLoss(m) => joined("Precision loss: ", m.as_str()),
            ConversionError::InvalidResult(m) => joined(
                "Invalid conversion result: ",
                m.as_str(),
            ),
        }
    }
}

impl UnitParseError {
    /// The human-readable description of the error.
    pub fn message(&self) -> (r: String)
        ensures
            r@ == parse_message(*self),
    {
        match self {
            UnitParseError::UnknownUnit(u, _) => {
                let mut r = joined("Unknown unit: '", u.as_str());
                r.append("'");
                r
            },
            UnitParseError::AmbiguousUnit(u) => {
                let mut r = joined("Ambiguous unit: '", u.as_str());
                r.append("'");
                r
            },
            UnitParseError::EmptyInput => "Empty unit input".to_owned(),
        }
    }
}

/// The first `n` suggestions, each in single quotes, separated by ", ".
pub open spec fn quoted_list(s: Seq<Seq<char>>, n: nat) -> Seq<char>
    decreases n,
{
    if n == 0 {
        Seq::empty()
    } else {
        let sep = if n == 1 {
            Seq::empty()
        } else {
            ", "@
        };
        quoted_list(s, (n - 1) as nat) + sep + "'"@ + s[n - 1] + "'"@
    }
}

/// The "did you mean" clause for a list of suggestions.
pub open spec fn suggestion_clause(s: Seq<Seq<char>>) -> Seq<char> {
    if s.len() == 0 {
        Seq::empty()
    } else if s.len() == 1 {
        "Did you mean '"@ + s[0] + "'?"@
    } else {
        "Did you mean one of: "@ + quoted_list(s, s.len()) + "?"@
    }
}

/// Renders zero, one or several suggestions as a single "did you mean" clause.
pub fn format_suggestions(suggestions: &[&str]) -> (r: String)
    ensures
        r@ == suggestion_clause(str_views(suggestions@)),
{
    let ghost views = str_views(suggestions@);
    let n = suggestions.len();
    if n == 0 {
        return String::new();
    }
    if n == 1 {
        let mut r = joined("Did you mean '", suggestions[0]);
        r.append("'?");
        return r;
    }
    let mut result = "Did you mean one of: ".to_owned();
    let mut i: usize = 0;
    while i < n
        invariant
            n == suggestions@.len(),
            views == str_views(suggestions@),
            i <= n,
            result@ == "Did you mean one of: "@ + quoted_list(views, i as nat),
        decreases n - i,
    {
        if i > 0 {
            result.append(", ");
        }
        result.append("'");
        result.append(suggestions[i]);
        result.append("'");
        proof {
            let sep = if i == 0 {
                Seq::<char>::empty()
            } else {
                ", "@
            };
            assert(quoted_list(views, (i + 1) as nat) == quoted_list(views, i as nat) + sep + "'"@
                + views[i as int] + "'"@);
        }
        i = i + 1;
    }
    result.append("?");
    result
}

} // verus!
