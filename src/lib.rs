//! Conversion of temperatures and lengths between units: the unit taxonomy,
//! the table of conversion formulas, the checks on values before and after a
//! conversion, and the resolution of typed unit names with suggestions.

use vstd::prelude::*;

pub mod distance;
pub mod errors;
pub mod formula;
pub mod number;
pub mod resolve;
pub mod text;
pub mod units;
pub mod validate;

verus! {

} // verus!
