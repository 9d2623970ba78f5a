//! Small string helpers shared by the query catalog and the aggregation
//! engine.

use vstd::prelude::*;
use vstd::string::StringExecFns;

verus! {

/// Relies on `str::eq` (the `PartialEq` impl for `str`): two string slices
/// compare equal exactly when they consist of the same bytes, which for valid
/// UTF-8 is the same as consisting of the same characters.
#[verifier::external_body]
pub(crate) fn str_eq(a: &str, b: &str) -> (r: bool)
    ensures
        r == (a@ == b@),
{
    a == b
}

/// `prefix`, then `filter`, then `suffix`, concatenated into one string; the
/// shape every query template of this crate takes.
pub(crate) fn concat3(prefix: &str, filter: &str, suffix: &str) -> (r: String)
    ensures
        r@ == prefix@ + filter@ + suffix@,
{
    String::from_str(prefix).concat(filter).concat(suffix)
}

} // verus!
