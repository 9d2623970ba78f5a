//! Query templates for the state category.

use vstd::prelude::*;
use vstd::string::StringExecFns;
use crate::strutil::{concat3, str_eq};

verus! {

#[derive(Debug, Clone, Copy, PartialEq, Eq, Default)]
pub enum StateQuery {
    Inception,
    Dissolution,
    Coordinates,
    Label,
    Flag,
    Capital,
    #[default]
    Unknown,
}

impl StateQuery {
    pub open spec fn spec_name(self) -> Seq<char> {
        match self {
            StateQuery::Inception => "Inception"@,
            StateQuery::Dissolution => "Dissolution"@,
            StateQuery::Coordinates => "Coordinates"@,
            StateQuery::Label => "Label"@,
            StateQuery::Flag => "Flag"@,
            StateQuery::Capital => "Capital"@,
            StateQuery::Unknown => "Unknown"@,
        }
    }

    /// The display name of the variant, used as the fetch target name.
    pub fn name(&self) -> (r: &'static str)
        ensures
            r@ == self.spec_name(),
    {
        match self {
            StateQuery::Inception => "Inception",
            StateQuery::Dissolution => "Dissolution",
            StateQuery::Coordinates => "Coordinates",
            StateQuery::Label => "Label",
            StateQuery::Flag => "Flag",
            StateQuery::Capital => "Capital",
            StateQuery::Unknown => "Unknown",
        }
    }

    pub open spec fn spec_parse(s: Seq<char>) -> Option<StateQuery> {
        if s == "Inception"@ {
            Some(StateQuery::Inception)
        } else if s == "Dissolution"@ {
            Some(StateQuery::Dissolution)
        } else if s == "Coordinates"@ {
            Some(StateQuery::Coordinates)
        } else if s == "Label"@ {
            Some(StateQuery::Label)
        } else if s == "Flag"@ {
            Some(StateQuery::Flag)
        } else if s == "Capital"@ {
            Some(StateQuery::Capital)
        } else if s == "Unknown"@ {
            Some(StateQuery::Unknown)
        } else {
            None
        }
    }

    /// Parse a variant from its display name.
    pub fn parse(s: &str) -> (r: Option<StateQuery>)
        ensures
            r == Self::spec_parse(s@),
    {
        if str_eq(s, "Inception") {
            Some(StateQuery::Inception)
        } else if str_eq(s, "Dissolution") {
            Some(StateQuery::Dissolution)
        } else if str_eq(s, "Coordinates") {
            Some(StateQuery::Coordinates)
        } else if str_eq(s, "Label") {
            Some(StateQuery::Label)
        } else if str_eq(s, "Flag") {
            Some(StateQuery::Flag)
        } else if str_eq(s, "Capital") {
            Some(StateQuery::Capital)
        } else if str_eq(s, "Unknown") {
            Some(StateQuery::Unknown)
        } else {
            None
        }
    }

    /// Every variant, in declaration order.
    pub fn variants() -> (r: Vec<StateQuery>)
        ensures
            r@ == seq![
                StateQuery::Inception,
                StateQuery::Dissolution,
                StateQuery::Coordinates,
                StateQuery::Label,
                StateQuery::Flag,
                StateQuery::Capital,
                StateQuery::Unknown,
            ],
    {
        let mut v: Vec<StateQuery> = Vec::new();
        v.push(StateQuery::Inception);
        v.push(StateQuery::Dissolution);
        v.push(StateQuery::Coordinates);
        v.push(StateQuery::Label);
        v.push(StateQuery::Flag);
        v.push(StateQuery::Capital);
        v.push(StateQuery::Unknown);
        proof {
            assert(v@ =~= seq![
                StateQuery::Inception,
                StateQuery::Dissolution,
                StateQuery::Coordinates,
                StateQuery::Label,
                StateQuery::Flag,
                StateQuery::Capital,
                StateQuery::Unknown,
            ]);
        }
        v
    }
}

pub open spec fn spec_state_filter() -> Seq<char> {
    "\n    {\n        ?state wdt:P31 wd:Q7275 .\n    } UNION {\n        ?state wdt:P31 wd:Q133442 .\n    } UNION {\n        ?state wdt:P31 wd:Q148837 .\n    }\n    FILTER NOT EXISTS { ?state wdt:P31 wd:Q6256 . }\n    FILTER NOT EXISTS { ?state wdt:P31 wd:Q3024240 .}\n    ?state wdt:P571 ?inception .\n    ?state wdt:P576 ?dissolution .  \n"@
}

/// The shared graph pattern that selects historical state entities.
fn state_filter() -> (r: &'static str)
    ensures
        r@ == spec_state_filter(),
{
    "\n    {\n        ?state wdt:P31 wd:Q7275 .\n    } UNION {\n        ?state wdt:P31 wd:Q133442 .\n    } UNION {\n        ?state wdt:P31 wd:Q148837 .\n    }\n    FILTER NOT EXISTS { ?state wdt:P31 wd:Q6256 . }\n    FILTER NOT EXISTS { ?state wdt:P31 wd:Q3024240 .}\n    ?state wdt:P571 ?inception .\n    ?state wdt:P576 ?dissolution .  \n"
}

pub open spec fn spec_gen_state_query(q: StateQuery) -> Seq<char> {
    match q {
        StateQuery::Inception => "SELECT DISTINCT ?state ?inception WHERE {\n                    "@
            + spec_state_filter()
            + "\n                }\n                "@,
        StateQuery::Dissolution => "SELECT DISTINCT ?state ?dissolution WHERE {\n                    "@
            + spec_state_filter()
            + "\n                }\n                "@,
        StateQuery::Coordinates => "SELECT DISTINCT ?state ?coordinates WHERE {\n                    "@
            + spec_state_filter()
            + "\n                    ?state wdt:P625 ?coordinates .\n                }\n                "@,
        StateQuery::Label => "SELECT DISTINCT ?state ?label ?language WHERE {\n                    "@
            + spec_state_filter()
            + "\n                    ?state rdfs:label ?label .\n                    BIND (LANG(?label) AS ?language) .\n                }\n                "@,
        StateQuery::Flag => "SELECT DISTINCT ?state ?flag WHERE {\n                    "@
            + spec_state_filter()
            + "\n                    ?state wdt:P41 ?flag .\n                }\n                "@,
        StateQuery::Capital => "SELECT DISTINCT ?state ?capital ?startTime ?endTime ?pointInTime WHERE {\n                    "@
            + spec_state_filter()
            + "\n                    ?state p:P36 ?capital_statement .\n                    ?capital_statement ps:P36 ?capital .\n                    OPTIONAL {\n                        ?capital_statement pq:P580 ?startTime .\n                    }\n                    OPTIONAL {\n                        ?capital_statement pq:P582 ?endTime .\n                    }\n                    OPTIONAL {\n                        ?capital_statement pq:P585 ?pointInTime .\n                    }\n                }\n                "@,
        StateQuery::Unknown => "Unknown"@,
    }
}

/// Render the ready-to-send query text of one variant.
pub fn gen_state_query(state_query: StateQuery) -> (r: String)
    ensures
        r@ == spec_gen_state_query(state_query),
{
    match state_query {
        StateQuery::Inception => concat3(
            "SELECT DISTINCT ?state ?inception WHERE {\n                    ",
            state_filter(),
            "\n                }\n                ",
        ),
        StateQuery::Dissolution => concat3(
            "SELECT DISTINCT ?state ?dissolution WHERE {\n                    ",
            state_filter(),
            "\n                }\n                ",
        ),
        StateQuery::Coordinates => concat3(
            "SELECT DISTINCT ?state ?coordinates WHERE {\n                    ",
            state_filter(),
            "\n                    ?state wdt:P625 ?coordinates .\n                }\n                ",
        ),
        StateQuery::Label => concat3(
            "SELECT DISTINCT ?state ?label ?language WHERE {\n                    ",
            state_filter(),
            "\n                    ?state rdfs:label ?label .\n                    BIND (LANG(?label) AS ?language) .\n                }\n                ",
        ),
        StateQuery::Flag => concat3(
            "SELECT DISTINCT ?state ?flag WHERE {\n                    ",
            state_filter(),
            "\n                    ?state wdt:P41 ?flag .\n                }\n                ",
        ),
        StateQuery::Capital => concat3(
            "SELECT DISTINCT ?state ?capital ?startTime ?endTime ?pointInTime WHERE {\n                    ",
            state_filter(),
            "\n                    ?state p:P36 ?capital_statement .\n                    ?capital_statement ps:P36 ?capital .\n                    OPTIONAL {\n                        ?capital_statement pq:P580 ?startTime .\n                    }\n                    OPTIONAL {\n                        ?capital_statement pq:P582 ?endTime .\n                    }\n                    OPTIONAL {\n                        ?capital_statement pq:P585 ?pointInTime .\n                    }\n                }\n                ",
        ),
        StateQuery::Unknown => String::from_str("Unknown"),
    }
}

} // verus!
