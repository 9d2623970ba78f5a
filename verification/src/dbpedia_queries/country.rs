//! Query templates for the country category on the DBpedia endpoint.

use vstd::prelude::*;
use vstd::string::StringExecFns;
use crate::strutil::{concat3, str_eq};

verus! {

#[derive(Debug, Clone, Copy, PartialEq, Eq, Default)]
pub enum CountryQuery {
    Inception,
    Dissolution,
    Coordinates,
    Capital,
    Label,
    Flag,
    #[default]
    Unknown,
}

impl CountryQuery {
    pub open spec fn spec_name(self) -> Seq<char> {
        match self {
            CountryQuery::Inception => "inception"@,
            CountryQuery::Dissolution => "dissolution"@,
            CountryQuery::Coordinates => "coordinates"@,
            CountryQuery::Capital => "capital"@,
            CountryQuery::Label => "label"@,
            CountryQuery::Flag => "flag"@,
            CountryQuery::Unknown => "Unknown"@,
        }
    }

    /// The display name of the variant, used as the fetch target name.
    pub fn name(&self) -> (r: &'static str)
        ensures
            r@ == self.spec_name(),
    {
        match self {
            CountryQuery::Inception => "inception",
            CountryQuery::Dissolution => "dissolution",
            CountryQuery::Coordinates => "coordinates",
            CountryQuery::Capital => "capital",
            CountryQuery::Label => "label",
            CountryQuery::Flag => "flag",
            CountryQuery::Unknown => "Unknown",
        }
    }

    pub open spec fn spec_parse(s: Seq<char>) -> Option<CountryQuery> {
        if s == "inception"@ {
            Some(CountryQuery::Inception)
        } else if s == "dissolution"@ {
            Some(CountryQuery::Dissolution)
        } else if s == "coordinates"@ {
            Some(CountryQuery::Coordinates)
        } else if s == "capital"@ {
            Some(CountryQuery::Capital)
        } else if s == "label"@ {
            Some(CountryQuery::Label)
        } else if s == "flag"@ {
            Some(CountryQuery::Flag)
        } else if s == "Unknown"@ {
            Some(CountryQuery::Unknown)
        } else {
            None
        }
    }

    /// Parse a variant from its display name.
    pub fn parse(s: &str) -> (r: Option<CountryQuery>)
        ensures
            r == Self::spec_parse(s@),
    {
        if str_eq(s, "inception") {
            Some(CountryQuery::Inception)
        } else if str_eq(s, "dissolution") {
            Some(CountryQuery::Dissolution)
        } else if str_eq(s, "coordinates") {
            Some(CountryQuery::Coordinates)
        } else if str_eq(s, "capital") {
            Some(CountryQuery::Capital)
        } else if str_eq(s, "label") {
            Some(CountryQuery::Label)
        } else if str_eq(s, "flag") {
            Some(CountryQuery::Flag)
        } else if str_eq(s, "Unknown") {
            Some(CountryQuery::Unknown)
        } else {
            None
        }
    }

    /// Every variant, in declaration order.
    pub fn variants() -> (r: Vec<CountryQuery>)
        ensures
            r@ == seq![
                CountryQuery::Inception,
                CountryQuery::Dissolution,
                CountryQuery::Coordinates,
                CountryQuery::Capital,
                CountryQuery::Label,
                CountryQuery::Flag,
                CountryQuery::Unknown,
            ],
    {
        let mut v: Vec<CountryQuery> = Vec::new();
        v.push(CountryQuery::Inception);
        v.push(CountryQuery::Dissolution);
        v.push(CountryQuery::Coordinates);
        v.push(CountryQuery::Capital);
        v.push(CountryQuery::Label);
        v.push(CountryQuery::Flag);
        v.push(CountryQuery::Unknown);
        proof {
            assert(v@ =~= seq![
                CountryQuery::Inception,
                CountryQuery::Dissolution,
                CountryQuery::Coordinates,
                CountryQuery::Capital,
                CountryQuery::Label,
                CountryQuery::Flag,
                CountryQuery::Unknown,
            ]);
        }
        v
    }
}

pub open spec fn spec_country_filter() -> Seq<char> {
    "\n    ?country rdf:type dbo:Country .\n"@
}

/// The shared graph pattern that selects country entities.
fn country_filter() -> (r: &'static str)
    ensures
        r@ == spec_country_filter(),
{
    "\n    ?country rdf:type dbo:Country .\n"
}

pub open spec fn spec_gen_country_query(q: CountryQuery) -> Seq<char> {
    match q {
        CountryQuery::Inception => "prefix rdfs: <http://www.w3.org/2000/01/rdf-schema#>\n                prefix rdf: <http://www.w3.org/1999/02/22-rdf-syntax-ns#>\n                prefix dbo: <http://dbpedia.org/ontology/>\n                select distinct ?country ?inception where {\n                    "@
            + spec_country_filter()
            + "\n                    ?country dbo:foundingDate ?inception .\n                }"@,
        CountryQuery::Dissolution => "prefix rdfs: <http://www.w3.org/2000/01/rdf-schema#>\n                prefix rdf: <http://www.w3.org/1999/02/22-rdf-syntax-ns#>\n                prefix dbo: <http://dbpedia.org/ontology/>\n                select distinct ?country ?dissolution where {\n                    "@
            + spec_country_filter()
            + "\n                    ?country dbo:dissolutionDate ?dissolution .\n                }"@,
        CountryQuery::Coordinates => "prefix rdfs: <http://www.w3.org/2000/01/rdf-schema#>\n                prefix rdf: <http://www.w3.org/1999/02/22-rdf-syntax-ns#>\n                prefix dbo: <http://dbpedia.org/ontology/>\n                prefix geo: <http://www.w3.org/2003/01/geo/wgs84_pos#>\n                select distinct ?country ?coordinates where {\n                    "@
            + spec_country_filter()
            + "\n                    ?country geo:geometry ?coordinates .\n                }"@,
        CountryQuery::Capital => "prefix rdfs: <http://www.w3.org/2000/01/rdf-schema#>\n                prefix rdf: <http://www.w3.org/1999/02/22-rdf-syntax-ns#>\n                prefix dbo: <http://dbpedia.org/ontology/>\n                select distinct ?country ?capital where {\n                    "@
            + spec_country_filter()
            + "\n                    ?country dbo:capital ?capital .\n                }"@,
        CountryQuery::Label => "prefix rdfs: <http://www.w3.org/2000/01/rdf-schema#>\n                prefix rdf: <http://www.w3.org/1999/02/22-rdf-syntax-ns#>\n                prefix dbo: <http://dbpedia.org/ontology/>\n                select distinct ?country ?label ?language where {\n                    "@
            + spec_country_filter()
            + "\n                    ?country rdfs:label ?label .\n                    BIND (LANG(?label) AS ?language)\n                }"@,
        CountryQuery::Flag => "prefix rdfs: <http://www.w3.org/2000/01/rdf-schema#>\n                prefix rdf: <http://www.w3.org/1999/02/22-rdf-syntax-ns#>\n                prefix dbo: <http://dbpedia.org/ontology/>\n                select distinct ?country ?flag where {\n                    "@
            + spec_country_filter()
            + "\n                    ?country dbo:flag ?flag .\n                }"@,
        CountryQuery::Unknown => "Unknown"@,
    }
}

/// Render the ready-to-send query text of one variant.
pub fn gen_country_query(country_query: CountryQuery) -> (r: String)
    ensures
        r@ == spec_gen_country_query(country_query),
{
    match country_query {
        CountryQuery::Inception => concat3(
            "prefix rdfs: <http://www.w3.org/2000/01/rdf-schema#>\n                prefix rdf: <http://www.w3.org/1999/02/22-rdf-syntax-ns#>\n                prefix dbo: <http://dbpedia.org/ontology/>\n                select distinct ?country ?inception where {\n                    ",
            country_filter(),
            "\n                    ?country dbo:foundingDate ?inception .\n                }",
        ),
        CountryQuery::Dissolution => concat3(
            "prefix rdfs: <http://www.w3.org/2000/01/rdf-schema#>\n                prefix rdf: <http://www.w3.org/1999/02/22-rdf-syntax-ns#>\n                prefix dbo: <http://dbpedia.org/ontology/>\n                select distinct ?country ?dissolution where {\n                    ",
            country_filter(),
            "\n                    ?country dbo:dissolutionDate ?dissolution .\n                }",
        ),
        CountryQuery::Coordinates => concat3(
            "prefix rdfs: <http://www.w3.org/2000/01/rdf-schema#>\n                prefix rdf: <http://www.w3.org/1999/02/22-rdf-syntax-ns#>\n                prefix dbo: <http://dbpedia.org/ontology/>\n                prefix geo: <http://www.w3.org/2003/01/geo/wgs84_pos#>\n                select distinct ?country ?coordinates where {\n                    ",
            country_filter(),
            "\n                    ?country geo:geometry ?coordinates .\n                }",
        ),
        CountryQuery::Capital => concat3(
            "prefix rdfs: <http://www.w3.org/2000/01/rdf-schema#>\n                prefix rdf: <http://www.w3.org/1999/02/22-rdf-syntax-ns#>\n                prefix dbo: <http://dbpedia.org/ontology/>\n                select distinct ?country ?capital where {\n                    ",
            country_filter(),
            "\n                    ?country dbo:capital ?capital .\n                }",
        ),
        CountryQuery::Label => concat3(
            "prefix rdfs: <http://www.w3.org/2000/01/rdf-schema#>\n                prefix rdf: <http://www.w3.org/1999/02/22-rdf-syntax-ns#>\n                prefix dbo: <http://dbpedia.org/ontology/>\n                select distinct ?country ?label ?language where {\n                    ",
            country_filter(),
            "\n                    ?country rdfs:label ?label .\n                    BIND (LANG(?label) AS ?language)\n                }",
        ),
        CountryQuery::Flag => concat3(
            "prefix rdfs: <http://www.w3.org/2000/01/rdf-schema#>\n                prefix rdf: <http://www.w3.org/1999/02/22-rdf-syntax-ns#>\n                prefix dbo: <http://dbpedia.org/ontology/>\n                select distinct ?country ?flag where {\n                    ",
            country_filter(),
            "\n                    ?country dbo:flag ?flag .\n                }",
        ),
        CountryQuery::Unknown => String::from_str("Unknown"),
    }
}

} // verus!
