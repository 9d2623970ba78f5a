//! Query templates for the war category.

use vstd::prelude::*;
use vstd::string::StringExecFns;
use crate::strutil::{concat3, str_eq};
use crate::queries::country::{country_filter, spec_country_filter};

verus! {

#[derive(Debug, Clone, Copy, PartialEq, Eq, Default)]
pub enum WarQuery {
    Label,
    Coordinates,
    Person,
    StartDate,
    EndDate,
    Country,
    Image,
    #[default]
    Unknown,
}

impl WarQuery {
    pub open spec fn spec_name(self) -> Seq<char> {
        match self {
            WarQuery::Label => "label"@,
            WarQuery::Coordinates => "coordinates"@,
            WarQuery::Person => "person"@,
            WarQuery::StartDate => "startDate"@,
            WarQuery::EndDate => "endDate"@,
            WarQuery::Country => "country"@,
            WarQuery::Image => "image"@,
            WarQuery::Unknown => "Unknown"@,
        }
    }

    /// The display name of the variant, used as the fetch target name.
    pub fn name(&self) -> (r: &'static str)
        ensures
            r@ == self.spec_name(),
    {
        match self {
            WarQuery::Label => "label",
            WarQuery::Coordinates => "coordinates",
            WarQuery::Person => "person",
            WarQuery::StartDate => "startDate",
            WarQuery::EndDate => "endDate",
            WarQuery::Country => "country",
            WarQuery::Image => "image",
            WarQuery::Unknown => "Unknown",
        }
    }

    pub open spec fn spec_parse(s: Seq<char>) -> Option<WarQuery> {
        if s == "label"@ {
            Some(WarQuery::Label)
        } else if s == "coordinates"@ {
            Some(WarQuery::Coordinates)
        } else if s == "person"@ {
            Some(WarQuery::Person)
        } else if s == "startDate"@ {
            Some(WarQuery::StartDate)
        } else if s == "endDate"@ {
            Some(WarQuery::EndDate)
        } else if s == "country"@ {
            Some(WarQuery::Country)
        } else if s == "image"@ {
            Some(WarQuery::Image)
        } else if s == "Unknown"@ {
            Some(WarQuery::Unknown)
        } else {
            None
        }
    }

    /// Parse a variant from its display name.
    pub fn parse(s: &str) -> (r: Option<WarQuery>)
        ensures
            r == Self::spec_parse(s@),
    {
        if str_eq(s, "label") {
            Some(WarQuery::Label)
        } else if str_eq(s, "coordinates") {
            Some(WarQuery::Coordinates)
        } else if str_eq(s, "person") {
            Some(WarQuery::Person)
        } else if str_eq(s, "startDate") {
            Some(WarQuery::StartDate)
        } else if str_eq(s, "endDate") {
            Some(WarQuery::EndDate)
        } else if str_eq(s, "country") {
            Some(WarQuery::Country)
        } else if str_eq(s, "image") {
            Some(WarQuery::Image)
        } else if str_eq(s, "Unknown") {
            Some(WarQuery::Unknown)
        } else {
            None
        }
    }

    /// Every variant, in declaration order.
    pub fn variants() -> (r: Vec<WarQuery>)
        ensures
            r@ == seq![
                WarQuery::Label,
                WarQuery::Coordinates,
                WarQuery::Person,
                WarQuery::StartDate,
                WarQuery::EndDate,
                WarQuery::Country,
                WarQuery::Image,
                WarQuery::Unknown,
            ],
    {
        let mut v: Vec<WarQuery> = Vec::new();
        v.push(WarQuery::Label);
        v.push(WarQuery::Coordinates);
        v.push(WarQuery::Person);
        v.push(WarQuery::StartDate);
        v.push(WarQuery::EndDate);
        v.push(WarQuery::Country);
        v.push(WarQuery::Image);
        v.push(WarQuery::Unknown);
        proof {
            assert(v@ =~= seq![
                WarQuery::Label,
                WarQuery::Coordinates,
                WarQuery::Person,
                WarQuery::StartDate,
                WarQuery::EndDate,
                WarQuery::Country,
                WarQuery::Image,
                WarQuery::Unknown,
            ]);
        }
        v
    }
}

pub open spec fn spec_war_filter() -> Seq<char> {
    "\n    ?war wdt:P31/wdt:P279* wd:Q198 .\n"@
}

/// The shared graph pattern that selects war entities.
fn war_filter() -> (r: &'static str)
    ensures
        r@ == spec_war_filter(),
{
    "\n    ?war wdt:P31/wdt:P279* wd:Q198 .\n"
}

pub open spec fn spec_gen_war_query(q: WarQuery) -> Seq<char> {
    match q {
        WarQuery::Label => "SELECT DISTINCT ?war ?label ?language WHERE {\n                    "@
            + spec_war_filter()
            + "\n                    ?war rdfs:label ?label .\n                    BIND (LANG(?label) AS ?language)\n                }\n                "@,
        WarQuery::Coordinates => "SELECT DISTINCT ?war ?coordinates WHERE {\n                    "@
            + spec_war_filter()
            + "\n                    ?war wdt:P625 ?coordinates .\n                }"@,
        WarQuery::Person => "SELECT DISTINCT ?war ?person WHERE {\n                    "@
            + spec_war_filter()
            + "\n                    ?war wdt:P710 ?person .\n                    ?person wdt:P31 wd:Q5 .\n                }"@,
        WarQuery::StartDate => "SELECT DISTINCT ?war ?startDate WHERE {\n                    "@
            + spec_war_filter()
            + "\n                    ?war wdt:P580 ?startDate .\n                }"@,
        WarQuery::EndDate => "SELECT DISTINCT ?war ?endDate WHERE {\n                    "@
            + spec_war_filter()
            + "\n                    ?war wdt:P582 ?endDate .\n                }"@,
        WarQuery::Country => "SELECT DISTINCT ?war ?country WHERE {\n                    "@
            + spec_war_filter()
            + "\n                    ?war wdt:P710 ?country .\n                    "@
            + spec_country_filter()
            + "\n                }"@,
        WarQuery::Image => "SELECT DISTINCT ?war ?image WHERE {\n                    "@
            + spec_war_filter()
            + "\n                    ?war wdt:P18 ?image .\n                }"@,
        WarQuery::Unknown => "Unknown"@,
    }
}

/// Render the ready-to-send query text of one variant.
pub fn gen_war_query(war_query: WarQuery) -> (r: String)
    ensures
        r@ == spec_gen_war_query(war_query),
{
    match war_query {
        WarQuery::Label => concat3(
            "SELECT DISTINCT ?war ?label ?language WHERE {\n                    ",
            war_filter(),
            "\n                    ?war rdfs:label ?label .\n                    BIND (LANG(?label) AS ?language)\n                }\n                ",
        ),
        WarQuery::Coordinates => concat3(
            "SELECT DISTINCT ?war ?coordinates WHERE {\n                    ",
            war_filter(),
            "\n                    ?war wdt:P625 ?coordinates .\n                }",
        ),
        WarQuery::Person => concat3(
            "SELECT DISTINCT ?war ?person WHERE {\n                    ",
            war_filter(),
            "\n                    ?war wdt:P710 ?person .\n                    ?person wdt:P31 wd:Q5 .\n                }",
        ),
        WarQuery::StartDate => concat3(
            "SELECT DISTINCT ?war ?startDate WHERE {\n                    ",
            war_filter(),
            "\n                    ?war wdt:P580 ?startDate .\n                }",
        ),
        WarQuery::EndDate => concat3(
            "SELECT DISTINCT ?war ?endDate WHERE {\n                    ",
            war_filter(),
            "\n                    ?war wdt:P582 ?endDate .\n                }",
        ),
        WarQuery::Country => String::from_str("SELECT DISTINCT ?war ?country WHERE {\n                    ").concat(war_filter()).concat("\n                    ?war wdt:P710 ?country .\n                    ").concat(country_filter()).concat("\n                }"),
        WarQuery::Image => concat3(
            "SELECT DISTINCT ?war ?image WHERE {\n                    ",
            war_filter(),
            "\n                    ?war wdt:P18 ?image .\n                }",
        ),
        WarQuery::Unknown => String::from_str("Unknown"),
    }
}

} // verus!
