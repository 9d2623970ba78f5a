//! Query templates for the country category.

use vstd::prelude::*;
use vstd::string::StringExecFns;
use crate::strutil::{concat3, str_eq};

verus! {

#[derive(Debug, Clone, Copy, PartialEq, Eq, Default)]
pub enum CountryQuery {
    Inception,
    Dissolution,
    Coordinates,
    Capital,
    Label,
    Flag,
    #[default]
    Unknown,
}

impl CountryQuery {
    pub open spec fn spec_name(self) -> Seq<char> {
        match self {
            CountryQuery::Inception => "Inception"@,
            CountryQuery::Dissolution => "Dissolution"@,
            CountryQuery::Coordinates => "Coordinates"@,
            CountryQuery::Capital => "Capital"@,
            CountryQuery::Label => "Label"@,
            CountryQuery::Flag => "Flag"@,
            CountryQuery::Unknown => "Unknown"@,
        }
    }

    /// The display name of the variant, used as the fetch target name.
    pub fn name(&self) -> (r: &'static str)
        ensures
            r@ == self.spec_name(),
    {
        match self {
            CountryQuery::Inception => "Inception",
            CountryQuery::Dissolution => "Dissolution",
            CountryQuery::Coordinates => "Coordinates",
            CountryQuery::Capital => "Capital",
            CountryQuery::Label => "Label",
            CountryQuery::Flag => "Flag",
            CountryQuery::Unknown => "Unknown",
        }
    }

    pub open spec fn spec_parse(s: Seq<char>) -> Option<CountryQuery> {
        if s == "Inception"@ {
            Some(CountryQuery::Inception)
        } else if s == "Dissolution"@ {
            Some(CountryQuery::Dissolution)
        } else if s == "Coordinates"@ {
            Some(CountryQuery::Coordinates)
        } else if s == "Capital"@ {
            Some(CountryQuery::Capital)
        } else if s == "Label"@ {
            Some(CountryQuery::Label)
        } else if s == "Flag"@ {
            Some(CountryQuery::Flag)
        } else if s == "Unknown"@ {
            Some(CountryQuery::Unknown)
        } else {
            None
        }
    }

    /// Parse a variant from its display name.
    pub fn parse(s: &str) -> (r: Option<CountryQuery>)
        ensures
            r == Self::spec_parse(s@),
    {
        if str_eq(s, "Inception") {
            Some(CountryQuery::Inception)
        } else if str_eq(s, "Dissolution") {
            Some(CountryQuery::Dissolution)
        } else if str_eq(s, "Coordinates") {
            Some(CountryQuery::Coordinates)
        } else if str_eq(s, "Capital") {
            Some(CountryQuery::Capital)
        } else if str_eq(s, "Label") {
            Some(CountryQuery::Label)
        } else if str_eq(s, "Flag") {
            Some(CountryQuery::Flag)
        } else if str_eq(s, "Unknown") {
            Some(CountryQuery::Unknown)
        } else {
            None
        }
    }

    /// Every variant, in declaration order.
    pub fn variants() -> (r: Vec<CountryQuery>)
        ensures
            r@ == seq![
                CountryQuery::Inception,
                CountryQuery::Dissolution,
                CountryQuery::Coordinates,
                CountryQuery::Capital,
                CountryQuery::Label,
                CountryQuery::Flag,
                CountryQuery::Unknown,
            ],
    {
        let mut v: Vec<CountryQuery> = Vec::new();
        v.push(CountryQuery::Inception);
        v.push(CountryQuery::Dissolution);
        v.push(CountryQuery::Coordinates);
        v.push(CountryQuery::Capital);
        v.push(CountryQuery::Label);
        v.push(CountryQuery::Flag);
        v.push(CountryQuery::Unknown);
        proof {
            assert(v@ =~= seq![
                CountryQuery::Inception,
                CountryQuery::Dissolution,
                CountryQuery::Coordinates,
                CountryQuery::Capital,
                CountryQuery::Label,
                CountryQuery::Flag,
                CountryQuery::Unknown,
            ]);
        }
        v
    }
}

pub open spec fn spec_country_filter() -> Seq<char> {
    "\n{\n?country wdt:P31 wd:Q6256 .\n} UNION {\n?country wdt:P31 wd:Q3024240 .\n}\n"@
}

/// The shared graph pattern that selects country entities, reused by several
/// categories.
pub fn country_filter() -> (r: &'static str)
    ensures
        r@ == spec_country_filter(),
{
    "\n{\n?country wdt:P31 wd:Q6256 .\n} UNION {\n?country wdt:P31 wd:Q3024240 .\n}\n"
}

pub open spec fn spec_gen_country_query(q: CountryQuery) -> Seq<char> {
    match q {
        CountryQuery::Inception => "SELECT DISTINCT ?country ?inception WHERE {\n                    "@
            + spec_country_filter()
            + "\n                    ?country wdt:P571 ?inception .\n                }"@,
        CountryQuery::Dissolution => "SELECT DISTINCT ?country ?dissolution WHERE {\n                    "@
            + spec_country_filter()
            + "\n                    ?country wdt:P576 ?dissolution .\n                }"@,
        CountryQuery::Coordinates => "SELECT DISTINCT ?country ?coordinates WHERE {\n                    "@
            + spec_country_filter()
            + "\n                    ?country wdt:P625 ?coordinates .\n                }"@,
        CountryQuery::Capital => "SELECT DISTINCT ?country ?capital ?startTime ?endTime ?pointInTime WHERE {\n                    "@
            + spec_country_filter()
            + "\n                    ?country p:P36 ?capital_statement .\n                    ?capital_statement ps:P36 ?capital .\n                    OPTIONAL {\n                        ?capital_statement pq:P580 ?startTime .\n                    }\n                    OPTIONAL {\n                        ?capital_statement pq:P582 ?endTime .\n                    }\n                    OPTIONAL {\n                        ?capital_statement pq:P585 ?pointInTime .\n                    }\n                }"@,
        CountryQuery::Label => "SELECT DISTINCT ?country ?label ?language WHERE {\n                    "@
            + spec_country_filter()
            + "\n                    ?country rdfs:label ?label .\n                    BIND (LANG(?label) AS ?language)\n                }"@,
        CountryQuery::Flag => "SELECT DISTINCT ?country ?flag WHERE {\n                    "@
            + spec_country_filter()
            + "\n                    ?country wdt:P41 ?flag .\n                }"@,
        CountryQuery::Unknown => "Unknown"@,
    }
}

/// Render the ready-to-send query text of one country variant.
pub fn gen_country_query(country_query: CountryQuery) -> (r: String)
    ensures
        r@ == spec_gen_country_query(country_query),
{
    match country_query {
        CountryQuery::Inception => concat3(
            "SELECT DISTINCT ?country ?inception WHERE {\n                    ",
            country_filter(),
            "\n                    ?country wdt:P571 ?inception .\n                }",
        ),
        CountryQuery::Dissolution => concat3(
            "SELECT DISTINCT ?country ?dissolution WHERE {\n                    ",
            country_filter(),
            "\n                    ?country wdt:P576 ?dissolution .\n                }",
        ),
        CountryQuery::Coordinates => concat3(
            "SELECT DISTINCT ?country ?coordinates WHERE {\n                    ",
            country_filter(),
            "\n                    ?country wdt:P625 ?coordinates .\n                }",
        ),
        CountryQuery::Capital => concat3(
            "SELECT DISTINCT ?country ?capital ?startTime ?endTime ?pointInTime WHERE {\n                    ",
            country_filter(),
            "\n                    ?country p:P36 ?capital_statement .\n                    ?capital_statement ps:P36 ?capital .\n                    OPTIONAL {\n                        ?capital_statement pq:P580 ?startTime .\n                    }\n                    OPTIONAL {\n                        ?capital_statement pq:P582 ?endTime .\n                    }\n                    OPTIONAL {\n                        ?capital_statement pq:P585 ?pointInTime .\n                    }\n                }",
        ),
        CountryQuery::Label => concat3(
            "SELECT DISTINCT ?country ?label ?language WHERE {\n                    ",
            country_filter(),
            "\n                    ?country rdfs:label ?label .\n                    BIND (LANG(?label) AS ?language)\n                }",
        ),
        CountryQuery::Flag => concat3(
            "SELECT DISTINCT ?country ?flag WHERE {\n                    ",
            country_filter(),
            "\n                    ?country wdt:P41 ?flag .\n                }",
        ),
        CountryQuery::Unknown => String::from_str("Unknown"),
    }
}

} // verus!
