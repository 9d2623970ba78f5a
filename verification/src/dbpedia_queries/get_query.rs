//! Category dispatch for the DBpedia endpoint: parse a (category, target)
//! pair into a typed query and render its text.

use vstd::prelude::*;
use crate::dbpedia_queries::battle::{gen_battle_query, spec_gen_battle_query, BattleQuery};
use crate::dbpedia_queries::country::{gen_country_query, spec_gen_country_query, CountryQuery};
use crate::errors::ParseError;
use crate::strutil::str_eq;

verus! {

#[derive(Debug, Clone, Copy, PartialEq, Eq)]
pub enum QueryTypes {
    Country(CountryQuery),
    Battle(BattleQuery),
}

impl QueryTypes {
    pub open spec fn spec_name(self) -> Seq<char> {
        match self {
            QueryTypes::Country(_) => "country"@,
            QueryTypes::Battle(_) => "battle"@,
        }
    }

    /// The display name of the category, used as the directory name under
    /// which its result files are stored.
    pub fn name(&self) -> (r: &'static str)
        ensures
            r@ == self.spec_name(),
    {
        match self {
            QueryTypes::Country(_) => "country",
            QueryTypes::Battle(_) => "battle",
        }
    }
}

pub open spec fn spec_get_query_type(c: Seq<char>, t: Seq<char>) -> Result<QueryTypes, ParseError> {
    if c == "country"@ {
        match CountryQuery::spec_parse(t) {
            Some(q) => Ok(QueryTypes::Country(q)),
            None => Err(ParseError::VariantNotFound),
        }
    } else if c == "battle"@ {
        match BattleQuery::spec_parse(t) {
            Some(q) => Ok(QueryTypes::Battle(q)),
            None => Err(ParseError::VariantNotFound),
        }
    } else {
        Err(ParseError::VariantNotFound)
    }
}

/// Resolve a category name and a target (variant) name to a typed query.
/// Succeeds exactly when the category names a known query family and the
/// target names one of its variants; otherwise the variant was not found.
pub fn get_query_type(category: &str, target: &str) -> (r: Result<QueryTypes, ParseError>)
    ensures
        r == spec_get_query_type(category@, target@),
{
    if str_eq(category, "country") {
        match CountryQuery::parse(target) {
            Some(q) => Ok(QueryTypes::Country(q)),
            None => Err(ParseError::VariantNotFound),
        }
    } else if str_eq(category, "battle") {
        match BattleQuery::parse(target) {
            Some(q) => Ok(QueryTypes::Battle(q)),
            None => Err(ParseError::VariantNotFound),
        }
    } else {
        Err(ParseError::VariantNotFound)
    }
}

pub open spec fn spec_gen_query(q: QueryTypes) -> Seq<char> {
    match q {
        QueryTypes::Country(query) => spec_gen_country_query(query),
        QueryTypes::Battle(query) => spec_gen_battle_query(query),
    }
}

/// Render the ready-to-send query text of a typed query.
pub fn gen_query(query_type: QueryTypes) -> (r: String)
    ensures
        r@ == spec_gen_query(query_type),
{
    match query_type {
        QueryTypes::Country(query) => gen_country_query(query),
        QueryTypes::Battle(query) => gen_battle_query(query),
    }
}

} // verus!
