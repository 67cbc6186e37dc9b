use vstd::prelude::*;
use vstd::string::StringExecFns;

use crate::distance::{edit_distance, levenshtein_distance};
use crate::errors::UnitParseError;
use crate::text::{chars_of, contains, is_infix, lower_of, lowercase, same_chars, str_views};
use crate::units::{degree_aliases, length_aliases, unit_kind, Degree, Length, QuantityKind, Unit};

verus! {

/// Largest edit distance at which a unit name is still offered as a suggestion.
pub const SUGGESTION_MAX_DISTANCE: usize = 3;

/// One of the two lower-cased strings contains the other.
pub open spec fn partial_hit(il: Seq<char>, u: Seq<char>) -> bool {
    is_infix(il, lower_of(u)) || is_infix(lower_of(u), il)
}

pub open spec fn any_partial_hit(il: Seq<char>, units: Seq<Seq<char>>) -> bool {
    exists|k: int| 0 <= k < units.len() && #[trigger] partial_hit(il, units[k])
}

pub open spec fn unit_distance(il: Seq<char>, u: Seq<char>) -> nat {
    edit_distance(il, lower_of(u))
}

/// `units[i]` is the candidate offered for `input`: the first one that contains
/// or is contained in the lower-cased input, or, where there is none, the first
/// of those nearest in edit distance, provided it is near enough.
pub open spec fn is_suggestion(input: Seq<char>, units: Seq<Seq<char>>, i: int) -> bool {
    let il = lower_of(input);
    &&& 0 <= i < units.len()
    &&& if any_partial_hit(il, units) {
        &&& partial_hit(il, units[i])
        &&& forall|k: int| 0 <= k < i ==> !#[trigger] partial_hit(il, units[k])
    } else {
        &&& unit_distance(il, units[i]) <= SUGGESTION_MAX_DISTANCE
        &&& forall|k: int|
            0 <= k < units.len() ==> #[trigger] unit_distance(il, units[k]) >= unit_distance(
                il,
                units[i],
            )
        &&& forall|k: int|
            0 <= k < i ==> #[trigger] unit_distance(il, units[k]) > unit_distance(il, units[i])
    }
}

pub open spec fn has_suggestion(input: Seq<char>, units: Seq<Seq<char>>) -> bool {
    exists|i: int| is_suggestion(input, units, i)
}

/// The candidate offered for `input`, if any.
pub open spec fn suggestion_for(input: Seq<char>, units: Seq<Seq<char>>) -> Option<Seq<char>> {
    if has_suggestion(input, units) {
        Some(units[choose|i: int| is_suggestion(input, units, i)])
    } else {
        None
    }
}

pub open spec fn opt_view(o: Option<String>) -> Option<Seq<char>> {
    match o {
        Some(s) => Some(s@),
        None => None,
    }
}

/// At most one candidate is the suggestion.
pub proof fn lemma_suggestion_unique(input: Seq<char>, units: Seq<Seq<char>>, i: int, j: int)
    requires
        is_suggestion(input, units, i),
        is_suggestion(input, units, j),
    ensures
        i == j,
{
    let il = lower_of(input);
    if any_partial_hit(il, units) {
        if i < j {
            assert(!partial_hit(il, units[i]));
        } else if j < i {
            assert(!partial_hit(il, units[j]));
        }
    } else {
        if i < j {
            assert(unit_distance(il, units[i]) > unit_distance(il, units[j]));
        } else if j < i {
            assert(unit_distance(il, units[j]) > unit_distance(il, units[i]));
        }
    }
}

proof fn lemma_suggestion_is(input: Seq<char>, units: Seq<Seq<char>>, i: int)
    requires
        is_suggestion(input, units, i),
    ensures
        suggestion_for(input, units) == Some(units[i]),
{
    let c = choose|c: int| is_suggestion(input, units, c);
    lemma_suggestion_unique(input, units, i, c);
}

/// Suggests the candidate closest to `input`.
///
/// A candidate that contains the lower-cased input, or is contained in it, wins
/// at once, in list order. Otherwise the first candidate at the least edit
/// distance is taken, if that distance is at most `SUGGESTION_MAX_DISTANCE`.
pub fn find_closest_match(input: &str, valid_units: &[&str]) -> (r: Option<String>)
    ensures
        opt_view(r) == suggestion_for(input@, str_views(valid_units@)),
{
    let ghost units = str_views(valid_units@);
    let ghost il = lower_of(input@);
    let input_lower = lowercase(input);
    let ic = chars_of(input_lower.as_str());
    let n = valid_units.len();

    let mut i: usize = 0;
    while i < n
        invariant
            n == valid_units@.len(),
            units == str_views(valid_units@),
            ic@ == il,
            il == lower_of(input@),
            i <= n,
            forall|k: int| 0 <= k < i ==> !#[trigger] partial_hit(il, units[k]),
        decreases n - i,
    {
        let unit_lower = lowercase(valid_units[i]);
        let uc = chars_of(unit_lower.as_str());
        if contains(&uc, &ic) || contains(&ic, &uc) {
            proof {
                assert(partial_hit(il, units[i as int]));
                assert(is_suggestion(input@, units, i as int));
                lemma_suggestion_is(input@, units, i as int);
            }
            return Some(valid_units[i].to_owned());
        }
        i = i + 1;
    }
    assert(!any_partial_hit(il, units));

    let mut best: Option<usize> = None;
    let mut min_distance: usize = usize::MAX;
    let mut i: usize = 0;
    while i < n
        invariant
            n == valid_units@.len(),
            units == str_views(valid_units@),
            il == lower_of(input@),
            input_lower@ == il,
            !any_partial_hit(il, units),
            i <= n,
            best is None ==> min_distance == usize::MAX && forall|k: int|
                0 <= k < i ==> #[trigger] unit_distance(il, units[k]) > SUGGESTION_MAX_DISTANCE,
            best matches Some(b) ==> {
                &&& b < i
                &&& min_distance == unit_distance(il, units[b as int])
                &&& min_distance <= SUGGESTION_MAX_DISTANCE
                &&& forall|k: int|
                    0 <= k < i ==> #[trigger] unit_distance(il, units[k]) >= min_distance
                &&& forall|k: int|
                    0 <= k < b ==> #[trigger] unit_distance(il, units[k]) > min_distance
            },
        decreases n - i,
    {
        let unit_lower = lowercase(valid_units[i]);
        let distance = levenshtein_distance(input_lower.as_str(), unit_lower.as_str());
        if distance < min_distance && distance <= SUGGESTION_MAX_DISTANCE {
            min_distance = distance;
            best = Some(i);
        }
        i = i + 1;
    }
    match best {
        Some(b) => {
            proof {
                assert(is_suggestion(input@, units, b as int));
                lemma_suggestion_is(input@, units, b as int);
            }
            Some(valid_units[b].to_owned())
        },
        None => {
            proof {
                assert forall|j: int| !is_suggestion(input@, units, j) by {
                    if 0 <= j < units.len() {
                        assert(unit_distance(il, units[j]) > SUGGESTION_MAX_DISTANCE);
                    }
                }
            }
            None
        },
    }
}

/// Accepted spellings of temperature units, full names and abbreviations.
pub open spec fn temperature_names() -> Seq<Seq<char>> {
    seq!["celsius"@, "c"@, "fahrenheit"@, "f"@, "kelvin"@, "k"@]
}

/// Accepted spellings of length units, full names and abbreviations.
pub open spec fn length_names() -> Seq<Seq<char>> {
    seq!["centimeter"@, "cm"@, "inch"@, "in"@, "kilometer"@, "km"@, "miles"@, "mi"@]
}

/// The temperature unit that a lower-cased name stands for.
pub open spec fn degree_named(s: Seq<char>) -> Option<Degree> {
    if s == "celsius"@ || s == "c"@ {
        Some(Degree::Celsius)
    } else if s == "fahrenheit"@ || s == "f"@ {
        Some(Degree::Fahrenheit)
    } else if s == "kelvin"@ || s == "k"@ {
        Some(Degree::Kelvin)
    } else {
        None
    }
}

/// The length unit that a lower-cased name stands for.
pub open spec fn length_named(s: Seq<char>) -> Option<Length> {
    if s == "centimeter"@ || s == "cm"@ {
        Some(Length::Centimeter)
    } else if s == "inch"@ || s == "in"@ {
        Some(Length::Inch)
    } else if s == "kilometer"@ || s == "km"@ {
        Some(Length::Kilometer)
    } else if s == "miles"@ || s == "mi"@ {
        Some(Length::Miles)
    } else {
        None
    }
}

/// The unit that typed text stands for within the hinted kind; without a hint,
/// temperature is tried before length.
pub open spec fn unit_named(hint: Option<QuantityKind>, text: Seq<char>) -> Option<Unit> {
    let l = lower_of(text);
    if text.len() == 0 {
        None
    } else {
        match hint {
            Some(QuantityKind::Temperature) => match degree_named(l) {
                Some(d) => Some(Unit::Temperature(d)),
                None => None,
            },
            Some(QuantityKind::Length) => match length_named(l) {
                Some(u) => Some(Unit::Length(u)),
                None => None,
            },
            None => match degree_named(l) {
                Some(d) => Some(Unit::Temperature(d)),
                None => match length_named(l) {
                    Some(u) => Some(Unit::Length(u)),
                    None => None,
                },
            },
        }
    }
}

/// The suggestion offered for text that names no unit of the hinted kind.
pub open spec fn suggestion_in(hint: Option<QuantityKind>, text: Seq<char>) -> Option<Seq<char>> {
    match hint {
        Some(QuantityKind::Temperature) => suggestion_for(text, temperature_names()),
        Some(QuantityKind::Length) => suggestion_for(text, length_names()),
        None => match suggestion_for(text, temperature_names()) {
            Some(s) => Some(s),
            None => suggestion_for(text, length_names()),
        },
    }
}

/// `e` is the error owed for `text` that names no unit of the hinted kind.
pub open spec fn is_parse_failure(
    e: UnitParseError,
    hint: Option<QuantityKind>,
    text: Seq<char>,
) -> bool {
    if text.len() == 0 {
        e == UnitParseError::EmptyInput
    } else {
        &&& unit_named(hint, text) is None
        &&& e matches UnitParseError::UnknownUnit(t, sug)
        &&& t@ == text
        &&& opt_view(sug) == suggestion_in(hint, text)
    }
}

/// `r` is what resolving `text` within the hinted kind owes.
pub open spec fn resolves_to(
    r: Result<Unit, UnitParseError>,
    hint: Option<QuantityKind>,
    text: Seq<char>,
) -> bool {
    match r {
        Ok(u) => unit_named(hint, text) == Some(u),
        Err(e) => is_parse_failure(e, hint, text),
    }
}

fn temperature_candidates() -> (r: Vec<&'static str>)
    ensures
        str_views(r@) == temperature_names(),
{
    let r = vec!["celsius", "c", "fahrenheit", "f", "kelvin", "k"];
    assert(str_views(r@) =~= temperature_names());
    r
}

fn length_candidates() -> (r: Vec<&'static str>)
    ensures
        str_views(r@) == length_names(),
{
    let r = vec!["centimeter", "cm", "inch", "in", "kilometer", "km", "miles", "mi"];
    assert(str_views(r@) =~= length_names());
    r
}

fn is_name(lc: &Vec<char>, name: &str) -> (r: bool)
    ensures
        r == (lc@ == name@),
{
    same_chars(lc, &chars_of(name))
}

fn unknown_unit(unit: &str, suggestion: Option<String>) -> (e: UnitParseError)
    ensures
        e matches UnitParseError::UnknownUnit(t, sug) && t@ == unit@ && sug == suggestion,
{
    UnitParseError::UnknownUnit(unit.to_owned(), suggestion)
}

/// Parses a temperature unit from its full name or abbreviation, in any case.
pub fn parse_temperature_unit(unit: &str) -> (r: Result<Degree, UnitParseError>)
    ensures
        match r {
            Ok(d) => unit_named(Some(QuantityKind::Temperature), unit@) == Some(
                Unit::Temperature(d),
            ),
            Err(e) => is_parse_failure(e, Some(QuantityKind::Temperature), unit@),
        },
{
    if unit.is_empty() {
        return Err(UnitParseError::EmptyInput);
    }
    let lower = lowercase(unit);
    let lc = chars_of(lower.as_str());
    if is_name(&lc, "celsius") || is_name(&lc, "c") {
        Ok(Degree::Celsius)
    } else if is_name(&lc, "fahrenheit") || is_name(&lc, "f") {
        Ok(Degree::Fahrenheit)
    } else if is_name(&lc, "kelvin") || is_name(&lc, "k") {
        Ok(Degree::Kelvin)
    } else {
        let names = temperature_candidates();
        Err(unknown_unit(unit, find_closest_match(unit, names.as_slice())))
    }
}

/// Parses a length unit from its full name or abbreviation, in any case.
pub fn parse_length_unit(unit: &str) -> (r: Result<Length, UnitParseError>)
    ensures
        match r {
            Ok(l) => unit_named(Some(QuantityKind::Length), unit@) == Some(Unit::Length(l)),
            Err(e) => is_parse_failure(e, Some(QuantityKind::Length), unit@),
        },
{
    if unit.is_empty() {
        return Err(UnitParseError::EmptyInput);
    }
    let lower = lowercase(unit);
    let lc = chars_of(lower.as_str());
    if is_name(&lc, "centimeter") || is_name(&lc, "cm") {
        Ok(Length::Centimeter)
    } else if is_name(&lc, "inch") || is_name(&lc, "in") {
        Ok(Length::Inch)
    } else if is_name(&lc, "kilometer") || is_name(&lc, "km") {
        Ok(Length::Kilometer)
    } else if is_name(&lc, "miles") || is_name(&lc, "mi") {
        Ok(Length::Miles)
    } else {
        let names = length_candidates();
        Err(unknown_unit(unit, find_closest_match(unit, names.as_slice())))
    }
}

/// Resolves free-form text to a canonical unit.
///
/// With a kind hint only units of that kind are considered; without one,
/// temperature names are tried first, then length names.
pub fn resolve_unit(kind_hint: Option<QuantityKind>, text: &str) -> (r: Result<
    Unit,
    UnitParseError,
>)
    ensures
        resolves_to(r, kind_hint, text@),
{
    match kind_hint {
        Some(QuantityKind::Temperature) => match parse_temperature_unit(text) {
            Ok(d) => Ok(Unit::Temperature(d)),
            Err(e) => Err(e),
        },
        Some(QuantityKind::Length) => match parse_length_unit(text) {
            Ok(l) => Ok(Unit::Length(l)),
            Err(e) => Err(e),
        },
        None => match parse_temperature_unit(text) {
            Ok(d) => Ok(Unit::Temperature(d)),
            Err(UnitParseError::EmptyInput) => Err(UnitParseError::EmptyInput),
            Err(_) => match parse_length_unit(text) {
                Ok(l) => Ok(Unit::Length(l)),
                Err(_) => {
                    let temps = temperature_candidates();
                    let suggestion = match find_closest_match(text, temps.as_slice()) {
                        Some(s) => Some(s),
                        None => {
                            let lengths = length_candidates();
                            find_closest_match(text, lengths.as_slice())
                        },
                    };
                    Err(unknown_unit(text, suggestion))
                },
            },
        },
    }
}

/// Two units of one kind, ready for conversion.
#[derive(Debug, Clone, Copy, PartialEq, Eq, Structural)]
pub enum UnitPair {
    Temperature(Degree, Degree),
    Length(Length, Length),
}

/// Why a pair of unit names cannot be converted between.
#[derive(Debug, Clone, PartialEq, Eq)]
pub enum PairError {
    /// Both names resolve, but to units of different kinds.
    CrossKind(Unit, Unit),
    /// At least one name resolves to no unit: the error for the source and for
    /// the target, each `None` where that side did resolve.
    Unknown(Option<UnitParseError>, Option<UnitParseError>),
}

/// The pair formed by two units, where they are of one kind.
pub open spec fn same_kind_pair(a: Unit, b: Unit) -> Option<UnitPair> {
    match (a, b) {
        (Unit::Temperature(x), Unit::Temperature(y)) => Some(UnitPair::Temperature(x, y)),
        (Unit::Length(x), Unit::Length(y)) => Some(UnitPair::Length(x, y)),
        _ => None,
    }
}

/// `o` reports the side `text` of a pair that failed as a whole.
pub open spec fn side_report(o: Option<UnitParseError>, text: Seq<char>) -> bool {
    match unit_named(None, text) {
        Some(_) => o is None,
        None => o matches Some(e) && is_parse_failure(e, None, text),
    }
}

/// `r` is what resolving the pair of names (`from`, `to`) owes.
pub open spec fn pair_resolves_to(
    r: Result<UnitPair, PairError>,
    from: Seq<char>,
    to: Seq<char>,
) -> bool {
    match (unit_named(None, from), unit_named(None, to)) {
        (Some(a), Some(b)) => match same_kind_pair(a, b) {
            Some(p) => r == Ok::<UnitPair, PairError>(p),
            None => r == Err::<UnitPair, PairError>(PairError::CrossKind(a, b)),
        },
        _ => r matches Err(PairError::Unknown(fe, te)) && side_report(fe, from) && side_report(
            te,
            to,
        ),
    }
}

/// Resolves a source and a target unit name without a kind hint.
///
/// Each name is classified on its own before a verdict is reached, so that a
/// temperature paired with a length is reported as such, apart from names that
/// resolve to no unit at all.
pub fn resolve_pair(from: &str, to: &str) -> (r: Result<UnitPair, PairError>)
    ensures
        pair_resolves_to(r, from@, to@),
{
    let a = resolve_unit(None, from);
    let b = resolve_unit(None, to);
    match (a, b) {
        (Ok(Unit::Temperature(x)), Ok(Unit::Temperature(y))) => Ok(UnitPair::Temperature(x, y)),
        (Ok(Unit::Length(x)), Ok(Unit::Length(y))) => Ok(UnitPair::Length(x, y)),
        (Ok(x), Ok(y)) => Err(PairError::CrossKind(x, y)),
        (Ok(_), Err(e)) => Err(PairError::Unknown(None, Some(e))),
        (Err(e), Ok(_)) => Err(PairError::Unknown(Some(e), None)),
        (Err(e), Err(f)) => Err(PairError::Unknown(Some(e), Some(f))),
    }
}

/// Resolution sees typed text only through its lower-cased form: two
/// spellings that differ only in case resolve alike and get the same
/// suggestion.
pub proof fn lemma_resolution_ignores_case(
    hint: Option<QuantityKind>,
    s: Seq<char>,
    t: Seq<char>,
)
    requires
        lower_of(s) == lower_of(t),
        s.len() > 0,
        t.len() > 0,
    ensures
        unit_named(hint, s) == unit_named(hint, t),
        suggestion_in(hint, s) == suggestion_in(hint, t),
{
    assert forall|units: Seq<Seq<char>>, i: int|
        is_suggestion(s, units, i) == is_suggestion(t, units, i) by {}
    assert forall|units: Seq<Seq<char>>|
        has_suggestion(s, units) == has_suggestion(t, units) by {
        if has_suggestion(s, units) {
            let i = choose|i: int| is_suggestion(s, units, i);
            assert(is_suggestion(t, units, i));
        }
        if has_suggestion(t, units) {
            let i = choose|i: int| is_suggestion(t, units, i);
            assert(is_suggestion(s, units, i));
        }
    }
    assert forall|units: Seq<Seq<char>>|
        suggestion_for(s, units) == suggestion_for(t, units) by {
        if has_suggestion(s, units) {
            let i = choose|i: int| is_suggestion(s, units, i);
            lemma_suggestion_is(s, units, i);
            lemma_suggestion_is(t, units, i);
        }
    }
}

/// A pair of names that resolve to units of different kinds is reported as a
/// cross-kind pair, never as an unknown unit.
pub proof fn lemma_cross_kind_detected(
    r: Result<UnitPair, PairError>,
    from: Seq<char>,
    to: Seq<char>,
)
    requires
        pair_resolves_to(r, from, to),
        unit_named(None, from) matches Some(a) && unit_named(None, to) matches Some(b)
            && unit_kind(a) != unit_kind(b),
    ensures
        r matches Err(PairError::CrossKind(a, b)) && unit_named(None, from) == Some(a)
            && unit_named(None, to) == Some(b),
{
}

/// The suggestion carried by the report of one side of a pair, if any.
pub open spec fn side_suggestion(o: Option<UnitParseError>) -> Option<Seq<char>> {
    match o {
        Some(UnitParseError::UnknownUnit(_, Some(s))) => Some(s@),
        _ => None,
    }
}

pub open spec fn invalid_line(o: Option<UnitParseError>, role: Seq<char>, text: Seq<char>) -> Seq<
    char,
> {
    if o is Some {
        "Invalid "@ + role + " unit: '"@ + text + "'\n"@
    } else {
        Seq::empty()
    }
}

pub open spec fn hint_line(o: Option<UnitParseError>, role: Seq<char>) -> Seq<char> {
    match side_suggestion(o) {
        Some(s) => "\nDid you mean '"@ + s + "' for the "@ + role + " unit?"@,
        None => Seq::empty(),
    }
}

pub open spec fn supported_units_text() -> Seq<char> {
    "\nSupported units:\nTemperature: celsius (c), fahrenheit (f), kelvin (k)\nLength: centimeter (cm), inch (in), kilometer (km), miles (mi)\n"@
}

/// The description of a failed pair (`from`, `to`) for a reader.
pub open spec fn pair_error_text(e: PairError, from: Seq<char>, to: Seq<char>) -> Seq<char> {
    match e {
        PairError::CrossKind(_, _) => "Cannot convert between different unit types. '"@ + from
            + "' and '"@ + to
            + "' are from different categories (temperature vs length)."@,
        PairError::Unknown(source, target) => invalid_line(source, "source"@, from)
            + invalid_line(target, "target"@, to) + supported_units_text() + hint_line(
            source,
            "source"@,
        ) + hint_line(target, "target"@),
    }
}

fn push_invalid_line(r: &mut String, o: &Option<UnitParseError>, role: &str, text: &str)
    ensures
        final(r)@ == old(r)@ + invalid_line(*o, role@, text@),
{
    if o.is_some() {
        r.append("Invalid ");
        r.append(role);
        r.append(" unit: '");
        r.append(text);
        r.append("'\n");
    } else {
        assert(old(r)@ + Seq::<char>::empty() =~= old(r)@);
    }
}

fn push_hint_line(r: &mut String, o: &Option<UnitParseError>, role: &str)
    ensures
        final(r)@ == old(r)@ + hint_line(*o, role@),
{
    match o {
        Some(UnitParseError::UnknownUnit(_, Some(s))) => {
            r.append("\nDid you mean '");
            r.append(s.as_str());
            r.append("' for the ");
            r.append(role);
            r.append(" unit?");
        },
        _ => {
            assert(old(r)@ + Seq::<char>::empty() =~= old(r)@);
        },
    }
}

impl PairError {
    /// Describes the failure for a reader: the two names of a cross-kind
    /// pair; or each name that resolves to no unit, the supported units, and
    /// the suggestion for each such name where there is one.
    pub fn describe(&self, from: &str, to: &str) -> (r: String)
        ensures
            r@ == pair_error_text(*self, from@, to@),
    {
        match self {
            PairError::CrossKind(_, _) => {
                let mut r = "Cannot convert between different unit types. '".to_owned();
                r.append(from);
                r.append("' and '");
                r.append(to);
                r.append("' are from different categories (temperature vs length).");
                r
            },
            PairError::Unknown(source, target) => {
                let mut r = String::new();
                push_invalid_line(&mut r, source, "source", from);
                push_invalid_line(&mut r, target, "target", to);
                r.append(
                    "\nSupported units:\nTemperature: celsius (c), fahrenheit (f), kelvin (k)\nLength: centimeter (cm), inch (in), kilometer (km), miles (mi)\n",
                );
                push_hint_line(&mut r, source, "source");
                push_hint_line(&mut r, target, "target");
                r
            },
        }
    }
}

/// A lower-cased name stands for a unit exactly when it is one of that unit's
/// aliases; the alias lists of all units together are the candidate lists
/// used for suggestions.
pub proof fn lemma_names_are_aliases(s: Seq<char>, l: Length, d: Degree)
    ensures
        length_named(s) == Some(l) <==> length_aliases(l).contains(s),
        degree_named(s) == Some(d) <==> degree_aliases(d).contains(s),
        length_names() == length_aliases(Length::Centimeter) + length_aliases(Length::Inch)
            + length_aliases(Length::Kilometer) + length_aliases(Length::Miles),
        temperature_names() == degree_aliases(Degree::Celsius) + degree_aliases(
            Degree::Fahrenheit,
        ) + degree_aliases(Degree::Kelvin),
{
    reveal_strlit("celsius");
    assert("celsius"@.len() == 7 && "celsius"@[0] == 'c');
    reveal_strlit("c");
    assert("c"@.len() == 1 && "c"@[0] == 'c');
    reveal_strlit("fahrenheit");
    assert("fahrenheit"@.len() == 10 && "fahrenheit"@[0] == 'f');
    reveal_strlit("f");
    assert("f"@.len() == 1 && "f"@[0] == 'f');
    reveal_strlit("kelvin");
    assert("kelvin"@.len() == 6 && "kelvin"@[0] == 'k');
    reveal_strlit("k");
    assert("k"@.len() == 1 && "k"@[0] == 'k');
    reveal_strlit("centimeter");
    assert("centimeter"@.len() == 10 && "centimeter"@[0] == 'c');
    reveal_strlit("cm");
    assert("cm"@.len() == 2 && "cm"@[0] == 'c');
    reveal_strlit("inch");
    assert("inch"@.len() == 4 && "inch"@[0] == 'i');
    reveal_strlit("in");
    assert("in"@.len() == 2 && "in"@[0] == 'i');
    reveal_strlit("kilometer");
    assert("kilometer"@.len() == 9 && "kilometer"@[0] == 'k');
    reveal_strlit("km");
    assert("km"@.len() == 2 && "km"@[0] == 'k');
    reveal_strlit("miles");
    assert("miles"@.len() == 5 && "miles"@[0] == 'm');
    reveal_strlit("mi");
    assert("mi"@.len() == 2 && "mi"@[0] == 'm');
    assert(length_names() =~= length_aliases(Length::Centimeter) + length_aliases(Length::Inch)
        + length_aliases(Length::Kilometer) + length_aliases(Length::Miles));
    assert(temperature_names() =~= degree_aliases(Degree::Celsius) + degree_aliases(
        Degree::Fahrenheit,
    ) + degree_aliases(Degree::Kelvin));
    let la = length_aliases(l);
    let da = degree_aliases(d);
    assert(la.contains(s) <==> (s == la[0] || s == la[1])) by {
        if la.contains(s) {
            let i = choose|i: int| 0 <= i < la.len() && la[i] == s;
            assert(i == 0 || i == 1);
        }
        if s == la[0] {
            assert(la[0] == s);
        }
        if s == la[1] {
            assert(la[1] == s);
        }
    }
    assert(da.contains(s) <==> (s == da[0] || s == da[1])) by {
        if da.contains(s) {
            let i = choose|i: int| 0 <= i < da.len() && da[i] == s;
            assert(i == 0 || i == 1);
        }
        if s == da[0] {
            assert(da[0] == s);
        }
        if s == da[1] {
            assert(da[1] == s);
        }
    }
}

} // verus!
