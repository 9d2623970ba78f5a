//! Category dispatch for the Wikidata endpoint: parse a (category, target)
//! pair into a typed query and render its text.

use vstd::prelude::*;
use crate::errors::ParseError;
use crate::queries::country::{gen_country_query, spec_gen_country_query, CountryQuery};
use crate::queries::league::{gen_league_query, spec_gen_league_query, LeagueQuery};
use crate::queries::league_member::{
    gen_league_member_query,
    spec_gen_league_member_query,
    LeagueMemberQuery,
};
use crate::queries::state::{gen_state_query, spec_gen_state_query, StateQuery};
use crate::queries::war::{gen_war_query, spec_gen_war_query, WarQuery};
use crate::strutil::str_eq;
use crate::wikidata_queries::battle::{gen_battle_query, spec_gen_battle_query, BattleQuery};
use crate::wikidata_queries::capital::{gen_capital_query, spec_gen_capital_query, CapitalQuery};

verus! {

#[derive(Debug, Clone, Copy, PartialEq, Eq)]
pub enum QueryTypes {
    Country(CountryQuery),
    Capital(CapitalQuery),
    War(WarQuery),
    Battle(BattleQuery),
    State(StateQuery),
    League(LeagueQuery),
    LeagueMember(LeagueMemberQuery),
}

impl QueryTypes {
    pub open spec fn spec_name(self) -> Seq<char> {
        match self {
            QueryTypes::Country(_) => "Country"@,
            QueryTypes::Capital(_) => "Capital"@,
            QueryTypes::War(_) => "War"@,
            QueryTypes::Battle(_) => "Battle"@,
            QueryTypes::State(_) => "State"@,
            QueryTypes::League(_) => "League"@,
            QueryTypes::LeagueMember(_) => "LeagueMember"@,
        }
    }

    /// The display name of the category, used as the directory name under
    /// which its result files are stored.
    pub fn name(&self) -> (r: &'static str)
        ensures
            r@ == self.spec_name(),
    {
        match self {
            QueryTypes::Country(_) => "Country",
            QueryTypes::Capital(_) => "Capital",
            QueryTypes::War(_) => "War",
            QueryTypes::Battle(_) => "Battle",
            QueryTypes::State(_) => "State",
            QueryTypes::League(_) => "League",
            QueryTypes::LeagueMember(_) => "LeagueMember",
        }
    }

    /// One value per category, each carrying its placeholder variant, in
    /// declaration order.
    pub fn variants() -> (r: Vec<QueryTypes>)
        ensures
            r@ == seq![
                QueryTypes::Country(CountryQuery::Unknown),
                QueryTypes::Capital(CapitalQuery::Unknown),
                QueryTypes::War(WarQuery::Unknown),
                QueryTypes::Battle(BattleQuery::Unknown),
                QueryTypes::State(StateQuery::Unknown),
                QueryTypes::League(LeagueQuery::Unknown),
                QueryTypes::LeagueMember(LeagueMemberQuery::Unknown),
            ],
    {
        let mut v: Vec<QueryTypes> = Vec::new();
        v.push(QueryTypes::Country(CountryQuery::Unknown));
        v.push(QueryTypes::Capital(CapitalQuery::Unknown));
        v.push(QueryTypes::War(WarQuery::Unknown));
        v.push(QueryTypes::Battle(BattleQuery::Unknown));
        v.push(QueryTypes::State(StateQuery::Unknown));
        v.push(QueryTypes::League(LeagueQuery::Unknown));
        v.push(QueryTypes::LeagueMember(LeagueMemberQuery::Unknown));
        proof {
            assert(v@ =~= seq![
                QueryTypes::Country(CountryQuery::Unknown),
                QueryTypes::Capital(CapitalQuery::Unknown),
                QueryTypes::War(WarQuery::Unknown),
                QueryTypes::Battle(BattleQuery::Unknown),
                QueryTypes::State(StateQuery::Unknown),
                QueryTypes::League(LeagueQuery::Unknown),
                QueryTypes::LeagueMember(LeagueMemberQuery::Unknown),
            ]);
        }
        v
    }
}

pub open spec fn spec_get_query_type(c: Seq<char>, t: Seq<char>) -> Result<QueryTypes, ParseError> {
    if c == "Country"@ {
        match CountryQuery::spec_parse(t) {
            Some(q) => Ok(QueryTypes::Country(q)),
            None => Err(ParseError::VariantNotFound),
        }
    } else if c == "Capital"@ {
        match CapitalQuery::spec_parse(t) {
            Some(q) => Ok(QueryTypes::Capital(q)),
            None => Err(ParseError::VariantNotFound),
        }
    } else if c == "War"@ {
        match WarQuery::spec_parse(t) {
            Some(q) => Ok(QueryTypes::War(q)),
            None => Err(ParseError::VariantNotFound),
        }
    } else if c == "Battle"@ {
        match BattleQuery::spec_parse(t) {
            Some(q) => Ok(QueryTypes::Battle(q)),
            None => Err(ParseError::VariantNotFound),
        }
    } else if c == "State"@ {
        match StateQuery::spec_parse(t) {
            Some(q) => Ok(QueryTypes::State(q)),
            None => Err(ParseError::VariantNotFound),
        }
    } else if c == "League"@ {
        match LeagueQuery::spec_parse(t) {
            Some(q) => Ok(QueryTypes::League(q)),
            None => Err(ParseError::VariantNotFound),
        }
    } else if c == "LeagueMember"@ {
        match LeagueMemberQuery::spec_parse(t) {
            Some(q) => Ok(QueryTypes::LeagueMember(q)),
            None => Err(ParseError::VariantNotFound),
        }
    } else {
        Err(ParseError::VariantNotFound)
    }
}

/// Resolve a category name and a target (variant) name to a typed query.
/// Succeeds exactly when the category names a known query family and the
/// target names one of its variants; otherwise the variant was not found.
pub fn get_query_type(category: String, target: String) -> (r: Result<QueryTypes, ParseError>)
    ensures
        r == spec_get_query_type(category@, target@),
{
    if str_eq(category.as_str(), "Country") {
        match CountryQuery::parse(target.as_str()) {
            Some(q) => Ok(QueryTypes::Country(q)),
            None => Err(ParseError::VariantNotFound),
        }
    } else if str_eq(category.as_str(), "Capital") {
        match CapitalQuery::parse(target.as_str()) {
            Some(q) => Ok(QueryTypes::Capital(q)),
            None => Err(ParseError::VariantNotFound),
        }
    } else if str_eq(category.as_str(), "War") {
        match WarQuery::parse(target.as_str()) {
            Some(q) => Ok(QueryTypes::War(q)),
            None => Err(ParseError::VariantNotFound),
        }
    } else if str_eq(category.as_str(), "Battle") {
        match BattleQuery::parse(target.as_str()) {
            Some(q) => Ok(QueryTypes::Battle(q)),
            None => Err(ParseError::VariantNotFound),
        }
    } else if str_eq(category.as_str(), "State") {
        match StateQuery::parse(target.as_str()) {
            Some(q) => Ok(QueryTypes::State(q)),
            None => Err(ParseError::VariantNotFound),
        }
    } else if str_eq(category.as_str(), "League") {
        match LeagueQuery::parse(target.as_str()) {
            Some(q) => Ok(QueryTypes::League(q)),
            None => Err(ParseError::VariantNotFound),
        }
    } else if str_eq(category.as_str(), "LeagueMember") {
        match LeagueMemberQuery::parse(target.as_str()) {
            Some(q) => Ok(QueryTypes::LeagueMember(q)),
            None => Err(ParseError::VariantNotFound),
        }
    } else {
        Err(ParseError::VariantNotFound)
    }
}

pub open spec fn spec_gen_query(q: QueryTypes) -> Seq<char> {
    match q {
        QueryTypes::Country(query) => spec_gen_country_query(query),
        QueryTypes::Capital(query) => spec_gen_capital_query(query),
        QueryTypes::War(query) => spec_gen_war_query(query),
        QueryTypes::Battle(query) => spec_gen_battle_query(query),
        QueryTypes::State(query) => spec_gen_state_query(query),
        QueryTypes::League(query) => spec_gen_league_query(query),
        QueryTypes::LeagueMember(query) => spec_gen_league_member_query(query),
    }
}

/// Render the ready-to-send query text of a typed query.
pub fn gen_query(query_type: QueryTypes) -> (r: String)
    ensures
        r@ == spec_gen_query(query_type),
{
    match query_type {
        QueryTypes::Country(query) => gen_country_query(query),
        QueryTypes::Capital(query) => gen_capital_query(query),
        QueryTypes::War(query) => gen_war_query(query),
        QueryTypes::Battle(query) => gen_battle_query(query),
        QueryTypes::State(query) => gen_state_query(query),
        QueryTypes::League(query) => gen_league_query(query),
        QueryTypes::LeagueMember(query) => gen_league_member_query(query),
    }
}

} // verus!
