//! Query templates for the capital category on the Wikidata endpoint.

use vstd::prelude::*;
use vstd::string::StringExecFns;
use crate::strutil::{concat3, str_eq};
use crate::queries::country::{country_filter, spec_country_filter};

verus! {

#[derive(Debug, Clone, Copy, PartialEq, Eq, Default)]
pub enum CapitalQuery {
    Label,
    Coordinates,
    #[default]
    Unknown,
}

impl CapitalQuery {
    pub open spec fn spec_name(self) -> Seq<char> {
        match self {
            CapitalQuery::Label => "label"@,
            CapitalQuery::Coordinates => "coordinates"@,
            CapitalQuery::Unknown => "Unknown"@,
        }
    }

    /// The display name of the variant, used as the fetch target name.
    pub fn name(&self) -> (r: &'static str)
        ensures
            r@ == self.spec_name(),
    {
        match self {
            CapitalQuery::Label => "label",
            CapitalQuery::Coordinates => "coordinates",
            CapitalQuery::Unknown => "Unknown",
        }
    }

    pub open spec fn spec_parse(s: Seq<char>) -> Option<CapitalQuery> {
        if s == "label"@ {
            Some(CapitalQuery::Label)
        } else if s == "coordinates"@ {
            Some(CapitalQuery::Coordinates)
        } else if s == "Unknown"@ {
            Some(CapitalQuery::Unknown)
        } else {
            None
        }
    }

    /// Parse a variant from its display name.
    pub fn parse(s: &str) -> (r: Option<CapitalQuery>)
        ensures
            r == Self::spec_parse(s@),
    {
        if str_eq(s, "label") {
            Some(CapitalQuery::Label)
        } else if str_eq(s, "coordinates") {
            Some(CapitalQuery::Coordinates)
        } else if str_eq(s, "Unknown") {
            Some(CapitalQuery::Unknown)
        } else {
            None
        }
    }

    /// Every variant, in declaration order.
    pub fn variants() -> (r: Vec<CapitalQuery>)
        ensures
            r@ == seq![
                CapitalQuery::Label,
                CapitalQuery::Coordinates,
                CapitalQuery::Unknown,
            ],
    {
        let mut v: Vec<CapitalQuery> = Vec::new();
        v.push(CapitalQuery::Label);
        v.push(CapitalQuery::Coordinates);
        v.push(CapitalQuery::Unknown);
        proof {
            assert(v@ =~= seq![
                CapitalQuery::Label,
                CapitalQuery::Coordinates,
                CapitalQuery::Unknown,
            ]);
        }
        v
    }
}

pub open spec fn spec_gen_capital_query(q: CapitalQuery) -> Seq<char> {
    match q {
        CapitalQuery::Label => "SELECT DISTINCT ?capital ?label ?language WHERE {\n                    "@
            + spec_country_filter()
            + "\n                    ?country wdt:P36 ?capital .\n                    ?capital rdfs:label ?label .\n                    BIND (LANG(?label) AS ?language)\n                }\n            "@,
        CapitalQuery::Coordinates => "SELECT DISTINCT ?capital ?coordinates WHERE {\n                    "@
            + spec_country_filter()
            + "\n                    ?country wdt:P36 ?capital .\n                    ?capital wdt:P625 ?coordinates .\n                }"@,
        CapitalQuery::Unknown => "Unknown"@,
    }
}

/// Render the ready-to-send query text of one variant.
pub fn gen_capital_query(capital_query: CapitalQuery) -> (r: String)
    ensures
        r@ == spec_gen_capital_query(capital_query),
{
    match capital_query {
        CapitalQuery::Label => concat3(
            "SELECT DISTINCT ?capital ?label ?language WHERE {\n                    ",
            country_filter(),
            "\n                    ?country wdt:P36 ?capital .\n                    ?capital rdfs:label ?label .\n                    BIND (LANG(?label) AS ?language)\n                }\n            ",
        ),
        CapitalQuery::Coordinates => concat3(
            "SELECT DISTINCT ?capital ?coordinates WHERE {\n                    ",
            country_filter(),
            "\n                    ?country wdt:P36 ?capital .\n                    ?capital wdt:P625 ?coordinates .\n                }",
        ),
        CapitalQuery::Unknown => String::from_str("Unknown"),
    }
}

} // verus!
