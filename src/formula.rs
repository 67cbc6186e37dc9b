use vstd::prelude::*;

use crate::units::{Degree, Length};

verus! {

/// An exact non-negative constant `num / den`.
#[derive(Debug, Clone, Copy, PartialEq, Eq, Structural)]
pub struct Ratio {
    pub num: u64,
    pub den: u64,
}

/// A constant added (or, when `negative`, subtracted).
#[derive(Debug, Clone, Copy, PartialEq, Eq, Structural)]
pub struct Offset {
    pub negative: bool,
    pub amount: Ratio,
}

/// A conversion formula `((v + pre) * mul / div) + post`, evaluated in that
/// order; an absent step is skipped, so the formula with no step returns its
/// input untouched.
#[derive(Debug, Clone, Copy, PartialEq, Eq, Structural)]
pub struct Formula {
    pub pre: Option<Offset>,
    pub mul: Option<Ratio>,
    pub div: Option<Ratio>,
    pub post: Option<Offset>,
}

/// A rational number as (numerator, positive denominator).
pub type Q = (int, int);

pub open spec fn q_add(a: Q, b: Q) -> Q {
    (a.0 * b.1 + b.0 * a.1, a.1 * b.1)
}

pub open spec fn q_mul(a: Q, b: Q) -> Q {
    (a.0 * b.0, a.1 * b.1)
}

pub open spec fn q_div(a: Q, b: Q) -> Q {
    (a.0 * b.1, a.1 * b.0)
}

pub open spec fn ratio_q(r: Ratio) -> Q {
    (r.num as int, r.den as int)
}

pub open spec fn offset_q(o: Option<Offset>) -> Q {
    match o {
        Some(x) => if x.negative {
            (-(x.amount.num as int), x.amount.den as int)
        } else {
            ratio_q(x.amount)
        },
        None => (0, 1),
    }
}

pub open spec fn factor_q(o: Option<Ratio>) -> Q {
    match o {
        Some(r) => ratio_q(r),
        None => (1, 1),
    }
}

/// In exact arithmetic the formula is `v * scale + shift`.
pub open spec fn scale_of(f: Formula) -> Q {
    q_div(factor_q(f.mul), factor_q(f.div))
}

pub open spec fn shift_of(f: Formula) -> Q {
    q_add(q_mul(offset_q(f.pre), scale_of(f)), offset_q(f.post))
}

/// Every constant has a positive denominator, and every divisor is non-zero.
pub open spec fn formula_wf(f: Formula) -> bool {
    &&& (f.pre matches Some(o) ==> o.amount.den > 0)
    &&& (f.post matches Some(o) ==> o.amount.den > 0)
    &&& (f.mul matches Some(r) ==> r.den > 0)
    &&& (f.div matches Some(r) ==> r.den > 0 && r.num > 0)
}

pub open spec fn identity_formula() -> Formula {
    Formula { pre: None, mul: None, div: None, post: None }
}

pub open spec fn r(num: u64, den: u64) -> Ratio {
    Ratio { num, den }
}

pub open spec fn times(num: u64, den: u64) -> Formula {
    Formula { pre: None, mul: Some(r(num, den)), div: None, post: None }
}

pub open spec fn divided(num: u64, den: u64) -> Formula {
    Formula { pre: None, mul: None, div: Some(r(num, den)), post: None }
}

pub open spec fn plus(num: u64, den: u64) -> Option<Offset> {
    Some(Offset { negative: false, amount: r(num, den) })
}

pub open spec fn minus(num: u64, den: u64) -> Option<Offset> {
    Some(Offset { negative: true, amount: r(num, den) })
}

/// The table of length formulas, each pair with its own constant.
pub open spec fn length_formula_spec(from: Length, to: Length) -> Formula {
    match (from, to) {
        (Length::Centimeter, Length::Inch) => divided(254, 100),
        (Length::Centimeter, Length::Kilometer) => divided(100000, 1),
        (Length::Centimeter, Length::Miles) => divided(1609344, 10),
        (Length::Inch, Length::Centimeter) => times(254, 100),
        (Length::Inch, Length::Kilometer) => times(254, 10000000),
        (Length::Inch, Length::Miles) => divided(63360, 1),
        (Length::Kilometer, Length::Centimeter) => times(100000, 1),
        (Length::Kilometer, Length::Inch) => times(3937008, 100),
        (Length::Kilometer, Length::Miles) => divided(1609344, 1000000),
        (Length::Miles, Length::Centimeter) => times(1609344, 10),
        (Length::Miles, Length::Inch) => times(63360, 1),
        (Length::Miles, Length::Kilometer) => times(1609344, 1000000),
        _ => identity_formula(),
    }
}

/// The table of temperature formulas.
pub open spec fn temperature_formula_spec(from: Degree, to: Degree) -> Formula {
    match (from, to) {
        (Degree::Celsius, Degree::Fahrenheit) => Formula {
            pre: None,
            mul: Some(r(9, 1)),
            div: Some(r(5, 1)),
            post: plus(32, 1),
        },
        (Degree::Celsius, Degree::Kelvin) => Formula {
            pre: None,
            mul: None,
            div: None,
            post: plus(27315, 100),
        },
        (Degree::Fahrenheit, Degree::Celsius) => Formula {
            pre: minus(32, 1),
            mul: Some(r(5, 1)),
            div: Some(r(9, 1)),
            post: None,
        },
        (Degree::Fahrenheit, Degree::Kelvin) => Formula {
            pre: plus(45967, 100),
            mul: Some(r(5, 1)),
            div: Some(r(9, 1)),
            post: None,
        },
        (Degree::Kelvin, Degree::Celsius) => Formula {
            pre: None,
            mul: None,
            div: None,
            post: minus(27315, 100),
        },
        (Degree::Kelvin, Degree::Fahrenheit) => Formula {
            pre: None,
            mul: Some(r(9, 1)),
            div: Some(r(5, 1)),
            post: minus(45967, 100),
        },
        _ => identity_formula(),
    }
}

fn ratio(num: u64, den: u64) -> (x: Ratio)
    ensures
        x == r(num, den),
{
    Ratio { num, den }
}

fn mul_by(num: u64, den: u64) -> (f: Formula)
    ensures
        f == times(num, den),
{
    Formula { pre: None, mul: Some(ratio(num, den)), div: None, post: None }
}

fn div_by(num: u64, den: u64) -> (f: Formula)
    ensures
        f == divided(num, den),
{
    Formula { pre: None, mul: None, div: Some(ratio(num, den)), post: None }
}

fn offset(negative: bool, num: u64, den: u64) -> (o: Option<Offset>)
    ensures
        o == if negative {
            minus(num, den)
        } else {
            plus(num, den)
        },
{
    Some(Offset { negative, amount: ratio(num, den) })
}

impl Formula {
    /// The formula that returns its input unchanged.
    pub fn identity() -> (f: Formula)
        ensures
            f == identity_formula(),
    {
        Formula { pre: None, mul: None, div: None, post: None }
    }
}

/// The formula converting a length from one unit to another. The same unit
/// gets the identity, which leaves the value untouched.
pub fn length_formula(from: Length, to: Length) -> (f: Formula)
    ensures
        f == length_formula_spec(from, to),
        formula_wf(f),
        (f == identity_formula()) <==> (from == to),
{
    match (from, to) {
        (Length::Centimeter, Length::Inch) => div_by(254, 100),
        (Length::Centimeter, Length::Kilometer) => div_by(100000, 1),
        (Length::Centimeter, Length::Miles) => div_by(1609344, 10),
        (Length::Inch, Length::Centimeter) => mul_by(254, 100),
        (Length::Inch, Length::Kilometer) => mul_by(254, 10000000),
        (Length::Inch, Length::Miles) => div_by(63360, 1),
        (Length::Kilometer, Length::Centimeter) => mul_by(100000, 1),
        (Length::Kilometer, Length::Inch) => mul_by(3937008, 100),
        (Length::Kilometer, Length::Miles) => div_by(1609344, 1000000),
        (Length::Miles, Length::Centimeter) => mul_by(1609344, 10),
        (Length::Miles, Length::Inch) => mul_by(63360, 1),
        (Length::Miles, Length::Kilometer) => mul_by(1609344, 1000000),
        _ => Formula::identity(),
    }
}

/// The formula converting a temperature from one unit to another. The same
/// unit gets the identity, which leaves the value untouched.
pub fn temperature_formula(from: Degree, to: Degree) -> (f: Formula)
    ensures
        f == temperature_formula_spec(from, to),
        formula_wf(f),
        (f == identity_formula()) <==> (from == to),
{
    match (from, to) {
        (Degree::Celsius, Degree::Fahrenheit) => Formula {
            pre: None,
            mul: Some(ratio(9, 1)),
            div: Some(ratio(5, 1)),
            post: offset(false, 32, 1),
        },
        (Degree::Celsius, Degree::Kelvin) => Formula {
            pre: None,
            mul: None,
            div: None,
            post: offset(false, 27315, 100),
        },
        (Degree::Fahrenheit, Degree::Celsius) => Formula {
            pre: offset(true, 32, 1),
            mul: Some(ratio(5, 1)),
            div: Some(ratio(9, 1)),
            post: None,
        },
        (Degree::Fahrenheit, Degree::Kelvin) => Formula {
            pre: offset(false, 45967, 100),
            mul: Some(ratio(5, 1)),
            div: Some(ratio(9, 1)),
            post: None,
        },
        (Degree::Kelvin, Degree::Celsius) => Formula {
            pre: None,
            mul: None,
            div: None,
            post: offset(true, 27315, 100),
        },
        (Degree::Kelvin, Degree::Fahrenheit) => Formula {
            pre: None,
            mul: Some(ratio(9, 1)),
            div: Some(ratio(5, 1)),
            post: offset(true, 45967, 100),
        },
        _ => Formula::identity(),
    }
}

/// In exact arithmetic, applying `f` then `g` is `v * scale + shift` with:
pub open spec fn chain_scale(f: Formula, g: Formula) -> Q {
    q_mul(scale_of(g), scale_of(f))
}

pub open spec fn chain_shift(f: Formula, g: Formula) -> Q {
    q_add(q_mul(scale_of(g), shift_of(f)), shift_of(g))
}

/// Applying `f` then `g` returns every value unchanged, in exact arithmetic.
pub open spec fn exact_round_trip(f: Formula, g: Formula) -> bool {
    &&& chain_scale(f, g).1 > 0
    &&& chain_scale(f, g).0 == chain_scale(f, g).1
    &&& chain_shift(f, g).1 > 0
    &&& chain_shift(f, g).0 == 0
}

/// Applying `f` then `g` adds nothing and scales by a factor within one part
/// in a million of 1, in exact arithmetic.
pub open spec fn near_round_trip(f: Formula, g: Formula) -> bool {
    let s = chain_scale(f, g);
    &&& s.1 > 0
    &&& chain_shift(f, g).1 > 0
    &&& chain_shift(f, g).0 == 0
    &&& 1000000 * (s.0 - s.1) <= s.1
    &&& 1000000 * (s.1 - s.0) <= s.1
}

pub open spec fn length_trip_near(a: Length, b: Length) -> bool {
    near_round_trip(length_formula_spec(a, b), length_formula_spec(b, a))
}

pub open spec fn length_trip_exact(a: Length, b: Length) -> bool {
    exact_round_trip(length_formula_spec(a, b), length_formula_spec(b, a))
}

pub open spec fn temperature_trip_exact(a: Degree, b: Degree) -> bool {
    exact_round_trip(temperature_formula_spec(a, b), temperature_formula_spec(b, a))
}

/// Converting a length to another unit and back returns it within a relative
/// error of one part in a million; exactly, except between kilometers and
/// inches, whose two constants are not exact inverses of each other.
pub proof fn lemma_length_round_trip(a: Length, b: Length)
    ensures
        length_trip_near(a, b),
        !((a == Length::Kilometer && b == Length::Inch) || (a == Length::Inch && b
            == Length::Kilometer)) ==> length_trip_exact(a, b),
{
    match (a, b) {
        (Length::Centimeter, Length::Centimeter) => {
            assert(length_trip_near(Length::Centimeter, Length::Centimeter) && length_trip_exact(
                Length::Centimeter,
                Length::Centimeter,
            )) by (nonlinear_arith);
        },
        (Length::Centimeter, Length::Inch) => {
            assert(length_trip_near(Length::Centimeter, Length::Inch) && length_trip_exact(
                Length::Centimeter,
                Length::Inch,
            )) by (nonlinear_arith);
        },
        (Length::Centimeter, Length::Kilometer) => {
            assert(length_trip_near(Length::Centimeter, Length::Kilometer) && length_trip_exact(
                Length::Centimeter,
                Length::Kilometer,
            )) by (nonlinear_arith);
        },
        (Length::Centimeter, Length::Miles) => {
            assert(length_trip_near(Length::Centimeter, Length::Miles) && length_trip_exact(
                Length::Centimeter,
                Length::Miles,
            )) by (nonlinear_arith);
        },
        (Length::Inch, Length::Centimeter) => {
            assert(length_trip_near(Length::Inch, Length::Centimeter) && length_trip_exact(
                Length::Inch,
                Length::Centimeter,
            )) by (nonlinear_arith);
        },
        (Length::Inch, Length::Inch) => {
            assert(length_trip_near(Length::Inch, Length::Inch) && length_trip_exact(
                Length::Inch,
                Length::Inch,
            )) by (nonlinear_arith);
        },
        (Length::Inch, Length::Kilometer) => {
            assert(length_trip_near(Length::Inch, Length::Kilometer)) by (nonlinear_arith);
        },
        (Length::Inch, Length::Miles) => {
            assert(length_trip_near(Length::Inch, Length::Miles) && length_trip_exact(
                Length::Inch,
                Length::Miles,
            )) by (nonlinear_arith);
        },
        (Length::Kilometer, Length::Centimeter) => {
            assert(length_trip_near(Length::Kilometer, Length::Centimeter) && length_trip_exact(
                Length::Kilometer,
                Length::Centimeter,
            )) by (nonlinear_arith);
        },
        (Length::Kilometer, Length::Inch) => {
            assert(length_trip_near(Length::Kilometer, Length::Inch)) by (nonlinear_arith);
        },
        (Length::Kilometer, Length::Kilometer) => {
            assert(length_trip_near(Length::Kilometer, Length::Kilometer) && length_trip_exact(
                Length::Kilometer,
                Length::Kilometer,
            )) by (nonlinear_arith);
        },
        (Length::Kilometer, Length::Miles) => {
            assert(length_trip_near(Length::Kilometer, Length::Miles) && length_trip_exact(
                Length::Kilometer,
                Length::Miles,
            )) by (nonlinear_arith);
        },
        (Length::Miles, Length::Centimeter) => {
            assert(length_trip_near(Length::Miles, Length::Centimeter) && length_trip_exact(
                Length::Miles,
                Length::Centimeter,
            )) by (nonlinear_arith);
        },
        (Length::Miles, Length::Inch) => {
            assert(length_trip_near(Length::Miles, Length::Inch) && length_trip_exact(
                Length::Miles,
                Length::Inch,
            )) by (nonlinear_arith);
        },
        (Length::Miles, Length::Kilometer) => {
            assert(length_trip_near(Length::Miles, Length::Kilometer) && length_trip_exact(
                Length::Miles,
                Length::Kilometer,
            )) by (nonlinear_arith);
        },
        (Length::Miles, Length::Miles) => {
            assert(length_trip_near(Length::Miles, Length::Miles) && length_trip_exact(
                Length::Miles,
                Length::Miles,
            )) by (nonlinear_arith);
        },
    }
}

/// Converting a temperature to another unit and back returns it exactly, in
/// exact arithmetic.
pub proof fn lemma_temperature_round_trip(a: Degree, b: Degree)
    ensures
        temperature_trip_exact(a, b),
        near_round_trip(temperature_formula_spec(a, b), temperature_formula_spec(b, a)),
{
    match (a, b) {
        (Degree::Celsius, Degree::Celsius) => {
            assert(temperature_trip_exact(Degree::Celsius, Degree::Celsius))
                by (nonlinear_arith);
        },
        (Degree::Celsius, Degree::Fahrenheit) => {
            assert(temperature_trip_exact(Degree::Celsius, Degree::Fahrenheit))
                by (nonlinear_arith);
        },
        (Degree::Celsius, Degree::Kelvin) => {
            assert(temperature_trip_exact(Degree::Celsius, Degree::Kelvin))
                by (nonlinear_arith);
        },
        (Degree::Fahrenheit, Degree::Celsius) => {
            assert(temperature_trip_exact(Degree::Fahrenheit, Degree::Celsius))
                by (nonlinear_arith);
        },
        (Degree::Fahrenheit, Degree::Fahrenheit) => {
            assert(temperature_trip_exact(Degree::Fahrenheit, Degree::Fahrenheit))
                by (nonlinear_arith);
        },
        (Degree::Fahrenheit, Degree::Kelvin) => {
            assert(temperature_trip_exact(Degree::Fahrenheit, Degree::Kelvin))
                by (nonlinear_arith);
        },
        (Degree::Kelvin, Degree::Celsius) => {
            assert(temperature_trip_exact(Degree::Kelvin, Degree::Celsius))
                by (nonlinear_arith);
        },
        (Degree::Kelvin, Degree::Fahrenheit) => {
            assert(temperature_trip_exact(Degree::Kelvin, Degree::Fahrenheit))
                by (nonlinear_arith);
        },
        (Degree::Kelvin, Degree::Kelvin) => {
            assert(temperature_trip_exact(Degree::Kelvin, Degree::Kelvin))
                by (nonlinear_arith);
        },
    }
}

} // verus!
