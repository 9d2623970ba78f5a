//! Query templates for the league member category.

use vstd::prelude::*;
use vstd::string::StringExecFns;
use crate::strutil::{concat3, str_eq};
use crate::queries::league::{league_filter, spec_league_filter};

verus! {

#[derive(Debug, Clone, Copy, PartialEq, Eq, Default)]
pub enum LeagueMemberQuery {
    Label,
    Coordinates,
    Flag,
    #[default]
    Unknown,
}

impl LeagueMemberQuery {
    pub open spec fn spec_name(self) -> Seq<char> {
        match self {
            LeagueMemberQuery::Label => "label"@,
            LeagueMemberQuery::Coordinates => "coordinates"@,
            LeagueMemberQuery::Flag => "flag"@,
            LeagueMemberQuery::Unknown => "Unknown"@,
        }
    }

    /// The display name of the variant, used as the fetch target name.
    pub fn name(&self) -> (r: &'static str)
        ensures
            r@ == self.spec_name(),
    {
        match self {
            LeagueMemberQuery::Label => "label",
            LeagueMemberQuery::Coordinates => "coordinates",
            LeagueMemberQuery::Flag => "flag",
            LeagueMemberQuery::Unknown => "Unknown",
        }
    }

    pub open spec fn spec_parse(s: Seq<char>) -> Option<LeagueMemberQuery> {
        if s == "label"@ {
            Some(LeagueMemberQuery::Label)
        } else if s == "coordinates"@ {
            Some(LeagueMemberQuery::Coordinates)
        } else if s == "flag"@ {
            Some(LeagueMemberQuery::Flag)
        } else if s == "Unknown"@ {
            Some(LeagueMemberQuery::Unknown)
        } else {
            None
        }
    }

    /// Parse a variant from its display name.
    pub fn parse(s: &str) -> (r: Option<LeagueMemberQuery>)
        ensures
            r == Self::spec_parse(s@),
    {
        if str_eq(s, "label") {
            Some(LeagueMemberQuery::Label)
        } else if str_eq(s, "coordinates") {
            Some(LeagueMemberQuery::Coordinates)
        } else if str_eq(s, "flag") {
            Some(LeagueMemberQuery::Flag)
        } else if str_eq(s, "Unknown") {
            Some(LeagueMemberQuery::Unknown)
        } else {
            None
        }
    }

    /// Every variant, in declaration order.
    pub fn variants() -> (r: Vec<LeagueMemberQuery>)
        ensures
            r@ == seq![
                LeagueMemberQuery::Label,
                LeagueMemberQuery::Coordinates,
                LeagueMemberQuery::Flag,
                LeagueMemberQuery::Unknown,
            ],
    {
        let mut v: Vec<LeagueMemberQuery> = Vec::new();
        v.push(LeagueMemberQuery::Label);
        v.push(LeagueMemberQuery::Coordinates);
        v.push(LeagueMemberQuery::Flag);
        v.push(LeagueMemberQuery::Unknown);
        proof {
            assert(v@ =~= seq![
                LeagueMemberQuery::Label,
                LeagueMemberQuery::Coordinates,
                LeagueMemberQuery::Flag,
                LeagueMemberQuery::Unknown,
            ]);
        }
        v
    }
}

pub open spec fn spec_gen_league_member_query(q: LeagueMemberQuery) -> Seq<char> {
    match q {
        LeagueMemberQuery::Label => "SELECT DISTINCT ?league_member ?label ?language WHERE {\n                    "@
            + spec_league_filter()
            + "\n                    BIND (?state AS ?league_member)\n                    ?league_member rdfs:label ?label .\n                    BIND (LANG(?label) AS ?language)\n                }\n                "@,
        LeagueMemberQuery::Coordinates => "SELECT DISTINCT ?league_member ?coordinates WHERE {\n                    "@
            + spec_league_filter()
            + "\n                    BIND (?state AS ?league_member)\n                    ?league_member wdt:P625 ?coordinates .\n                }\n                "@,
        LeagueMemberQuery::Flag => "SELECT DISTINCT ?league_member ?flag WHERE {\n                    "@
            + spec_league_filter()
            + "\n                    BIND (?state AS ?league_member)\n                    ?league_member wdt:P41 ?flag .\n                }\n                "@,
        LeagueMemberQuery::Unknown => ""@,
    }
}

/// Render the ready-to-send query text of one variant.
pub fn gen_league_member_query(league_member_query: LeagueMemberQuery) -> (r: String)
    ensures
        r@ == spec_gen_league_member_query(league_member_query),
{
    match league_member_query {
        LeagueMemberQuery::Label => concat3(
            "SELECT DISTINCT ?league_member ?label ?language WHERE {\n                    ",
            league_filter(),
            "\n                    BIND (?state AS ?league_member)\n                    ?league_member rdfs:label ?label .\n                    BIND (LANG(?label) AS ?language)\n                }\n                ",
        ),
        LeagueMemberQuery::Coordinates => concat3(
            "SELECT DISTINCT ?league_member ?coordinates WHERE {\n                    ",
            league_filter(),
            "\n                    BIND (?state AS ?league_member)\n                    ?league_member wdt:P625 ?coordinates .\n                }\n                ",
        ),
        LeagueMemberQuery::Flag => concat3(
            "SELECT DISTINCT ?league_member ?flag WHERE {\n                    ",
            league_filter(),
            "\n                    BIND (?state AS ?league_member)\n                    ?league_member wdt:P41 ?flag .\n                }\n                ",
        ),
        LeagueMemberQuery::Unknown => String::from_str(""),
    }
}

} // verus!
