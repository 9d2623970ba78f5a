//! Query templates for the league category.

use vstd::prelude::*;
use vstd::string::StringExecFns;
use crate::strutil::{concat3, str_eq};

verus! {

#[derive(Debug, Clone, Copy, PartialEq, Eq, Default)]
pub enum LeagueQuery {
    Inception,
    Dissolution,
    Label,
    State,
    Flag,
    #[default]
    Unknown,
}

impl LeagueQuery {
    pub open spec fn spec_name(self) -> Seq<char> {
        match self {
            LeagueQuery::Inception => "Inception"@,
            LeagueQuery::Dissolution => "Dissolution"@,
            LeagueQuery::Label => "Label"@,
            LeagueQuery::State => "State"@,
            LeagueQuery::Flag => "Flag"@,
            LeagueQuery::Unknown => "Unknown"@,
        }
    }

    /// The display name of the variant, used as the fetch target name.
    pub fn name(&self) -> (r: &'static str)
        ensures
            r@ == self.spec_name(),
    {
        match self {
            LeagueQuery::Inception => "Inception",
            LeagueQuery::Dissolution => "Dissolution",
            LeagueQuery::Label => "Label",
            LeagueQuery::State => "State",
            LeagueQuery::Flag => "Flag",
            LeagueQuery::Unknown => "Unknown",
        }
    }

    pub open spec fn spec_parse(s: Seq<char>) -> Option<LeagueQuery> {
        if s == "Inception"@ {
            Some(LeagueQuery::Inception)
        } else if s == "Dissolution"@ {
            Some(LeagueQuery::Dissolution)
        } else if s == "Label"@ {
            Some(LeagueQuery::Label)
        } else if s == "State"@ {
            Some(LeagueQuery::State)
        } else if s == "Flag"@ {
            Some(LeagueQuery::Flag)
        } else if s == "Unknown"@ {
            Some(LeagueQuery::Unknown)
        } else {
            None
        }
    }

    /// Parse a variant from its display name.
    pub fn parse(s: &str) -> (r: Option<LeagueQuery>)
        ensures
            r == Self::spec_parse(s@),
    {
        if str_eq(s, "Inception") {
            Some(LeagueQuery::Inception)
        } else if str_eq(s, "Dissolution") {
            Some(LeagueQuery::Dissolution)
        } else if str_eq(s, "Label") {
            Some(LeagueQuery::Label)
        } else if str_eq(s, "State") {
            Some(LeagueQuery::State)
        } else if str_eq(s, "Flag") {
            Some(LeagueQuery::Flag)
        } else if str_eq(s, "Unknown") {
            Some(LeagueQuery::Unknown)
        } else {
            None
        }
    }

    /// Every variant, in declaration order.
    pub fn variants() -> (r: Vec<LeagueQuery>)
        ensures
            r@ == seq![
                LeagueQuery::Inception,
                LeagueQuery::Dissolution,
                LeagueQuery::Label,
                LeagueQuery::State,
                LeagueQuery::Flag,
                LeagueQuery::Unknown,
            ],
    {
        let mut v: Vec<LeagueQuery> = Vec::new();
        v.push(LeagueQuery::Inception);
        v.push(LeagueQuery::Dissolution);
        v.push(LeagueQuery::Label);
        v.push(LeagueQuery::State);
        v.push(LeagueQuery::Flag);
        v.push(LeagueQuery::Unknown);
        proof {
            assert(v@ =~= seq![
                LeagueQuery::Inception,
                LeagueQuery::Dissolution,
                LeagueQuery::Label,
                LeagueQuery::State,
                LeagueQuery::Flag,
                LeagueQuery::Unknown,
            ]);
        }
        v
    }
}

pub open spec fn spec_league_filter() -> Seq<char> {
    "\n    ?league wdt:P31 wd:Q170156 .\n    FILTER NOT EXISTS { ?league wdt:P31 wd:Q6256 . }\n    FILTER NOT EXISTS { ?league wdt:P31 wd:Q3024240 . }\n    {\n        ?state wdt:P463 ?league .\n    } UNION {\n        ?league wdt:P150 ?state .\n    }\n    {\n        ?state wdt:P31 wd:Q6256 .\n    } UNION {\n        ?state wdt:P31 wd:Q3024240 .\n    } UNION {\n        ?state wdt:P31 wd:Q7275 .\n    } UNION {\n        ?state wdt:P31/wdt:P279* wd:Q515 .\n    } UNION {\n        ?state wdt:P31 wd:Q133442 .\n    } UNION {\n        ?state wdt:P31 wd:Q148837 .\n    }\n"@
}

/// The shared graph pattern that selects league entities and their member states.
pub fn league_filter() -> (r: &'static str)
    ensures
        r@ == spec_league_filter(),
{
    "\n    ?league wdt:P31 wd:Q170156 .\n    FILTER NOT EXISTS { ?league wdt:P31 wd:Q6256 . }\n    FILTER NOT EXISTS { ?league wdt:P31 wd:Q3024240 . }\n    {\n        ?state wdt:P463 ?league .\n    } UNION {\n        ?league wdt:P150 ?state .\n    }\n    {\n        ?state wdt:P31 wd:Q6256 .\n    } UNION {\n        ?state wdt:P31 wd:Q3024240 .\n    } UNION {\n        ?state wdt:P31 wd:Q7275 .\n    } UNION {\n        ?state wdt:P31/wdt:P279* wd:Q515 .\n    } UNION {\n        ?state wdt:P31 wd:Q133442 .\n    } UNION {\n        ?state wdt:P31 wd:Q148837 .\n    }\n"
}

pub open spec fn spec_gen_league_query(q: LeagueQuery) -> Seq<char> {
    match q {
        LeagueQuery::Inception => "SELECT DISTINCT ?league ?inception WHERE {\n                    "@
            + spec_league_filter()
            + "\n                    ?league wdt:P571 ?inception .\n                }\n                "@,
        LeagueQuery::Dissolution => "SELECT DISTINCT ?league ?dissolution WHERE {\n                    "@
            + spec_league_filter()
            + "\n                    ?league wdt:P576 ?dissolution .\n                }\n                "@,
        LeagueQuery::Label => "SELECT DISTINCT ?league ?label ?language WHERE {\n                    "@
            + spec_league_filter()
            + "\n                    ?league rdfs:label ?label .\n                    BIND (LANG(?label) AS ?language)\n                }\n                "@,
        LeagueQuery::State => "SELECT DISTINCT ?league ?state WHERE {\n                    "@
            + spec_league_filter()
            + "\n                }\n                "@,
        LeagueQuery::Flag => "SELECT DISTINCT ?league ?flag WHERE {\n                    "@
            + spec_league_filter()
            + "\n                    ?league wdt:P41 ?flag .\n                }\n                "@,
        LeagueQuery::Unknown => "SELECT DISTINCT ?league ?label ?language WHERE {\n                    "@
            + spec_league_filter()
            + "\n                    ?league rdfs:label ?label .\n                    BIND (LANG(?label) AS ?language)\n                }\n                "@,
    }
}

/// Render the ready-to-send query text of one variant.
pub fn gen_league_query(league_query: LeagueQuery) -> (r: String)
    ensures
        r@ == spec_gen_league_query(league_query),
{
    match league_query {
        LeagueQuery::Inception => concat3(
            "SELECT DISTINCT ?league ?inception WHERE {\n                    ",
            league_filter(),
            "\n                    ?league wdt:P571 ?inception .\n                }\n                ",
        ),
        LeagueQuery::Dissolution => concat3(
            "SELECT DISTINCT ?league ?dissolution WHERE {\n                    ",
            league_filter(),
            "\n                    ?league wdt:P576 ?dissolution .\n                }\n                ",
        ),
        LeagueQuery::Label => concat3(
            "SELECT DISTINCT ?league ?label ?language WHERE {\n                    ",
            league_filter(),
            "\n                    ?league rdfs:label ?label .\n                    BIND (LANG(?label) AS ?language)\n                }\n                ",
        ),
        LeagueQuery::State => concat3(
            "SELECT DISTINCT ?league ?state WHERE {\n                    ",
            league_filter(),
            "\n                }\n                ",
        ),
        LeagueQuery::Flag => concat3(
            "SELECT DISTINCT ?league ?flag WHERE {\n                    ",
            league_filter(),
            "\n                    ?league wdt:P41 ?flag .\n                }\n                ",
        ),
        LeagueQuery::Unknown => concat3(
            "SELECT DISTINCT ?league ?label ?language WHERE {\n                    ",
            league_filter(),
            "\n                    ?league rdfs:label ?label .\n                    BIND (LANG(?label) AS ?language)\n                }\n                ",
        ),
    }
}

} // verus!
