//! Error types of the library.

use vstd::prelude::*;

verus! {

/// A category or variant string that names no known query.
#[derive(Debug, Clone, Copy, PartialEq, Eq)]
pub enum ParseError {
    VariantNotFound,
}

/// A solution row that does not bind the category column; `result_set` and
/// `row` locate the first such row in the aggregated input.
#[derive(Debug, Clone, Copy, PartialEq, Eq)]
pub struct MalformedBindingError {
    pub result_set: usize,
    pub row: usize,
}

} // verus!
