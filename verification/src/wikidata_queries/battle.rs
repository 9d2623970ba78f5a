//! Query templates for the battle category on the Wikidata endpoint.

use vstd::prelude::*;
use vstd::string::StringExecFns;
use crate::strutil::{concat3, str_eq};
use crate::queries::country::{country_filter, spec_country_filter};

verus! {

#[derive(Debug, Clone, Copy, PartialEq, Eq, Default)]
pub enum BattleQuery {
    Label,
    Coordinates,
    PartOf,
    Person,
    Country,
    PointInTime,
    Image,
    #[default]
    Unknown,
}

impl BattleQuery {
    pub open spec fn spec_name(self) -> Seq<char> {
        match self {
            BattleQuery::Label => "label"@,
            BattleQuery::Coordinates => "coordinates"@,
            BattleQuery::PartOf => "partOf"@,
            BattleQuery::Person => "person"@,
            BattleQuery::Country => "country"@,
            BattleQuery::PointInTime => "pointInTime"@,
            BattleQuery::Image => "image"@,
            BattleQuery::Unknown => "Unknown"@,
        }
    }

    /// The display name of the variant, used as the fetch target name.
    pub fn name(&self) -> (r: &'static str)
        ensures
            r@ == self.spec_name(),
    {
        match self {
            BattleQuery::Label => "label",
            BattleQuery::Coordinates => "coordinates",
            BattleQuery::PartOf => "partOf",
            BattleQuery::Person => "person",
            BattleQuery::Country => "country",
            BattleQuery::PointInTime => "pointInTime",
            BattleQuery::Image => "image",
            BattleQuery::Unknown => "Unknown",
        }
    }

    pub open spec fn spec_parse(s: Seq<char>) -> Option<BattleQuery> {
        if s == "label"@ {
            Some(BattleQuery::Label)
        } else if s == "coordinates"@ {
            Some(BattleQuery::Coordinates)
        } else if s == "partOf"@ {
            Some(BattleQuery::PartOf)
        } else if s == "person"@ {
            Some(BattleQuery::Person)
        } else if s == "country"@ {
            Some(BattleQuery::Country)
        } else if s == "pointInTime"@ {
            Some(BattleQuery::PointInTime)
        } else if s == "image"@ {
            Some(BattleQuery::Image)
        } else if s == "Unknown"@ {
            Some(BattleQuery::Unknown)
        } else {
            None
        }
    }

    /// Parse a variant from its display name.
    pub fn parse(s: &str) -> (r: Option<BattleQuery>)
        ensures
            r == Self::spec_parse(s@),
    {
        if str_eq(s, "label") {
            Some(BattleQuery::Label)
        } else if str_eq(s, "coordinates") {
            Some(BattleQuery::Coordinates)
        } else if str_eq(s, "partOf") {
            Some(BattleQuery::PartOf)
        } else if str_eq(s, "person") {
            Some(BattleQuery::Person)
        } else if str_eq(s, "country") {
            Some(BattleQuery::Country)
        } else if str_eq(s, "pointInTime") {
            Some(BattleQuery::PointInTime)
        } else if str_eq(s, "image") {
            Some(BattleQuery::Image)
        } else if str_eq(s, "Unknown") {
            Some(BattleQuery::Unknown)
        } else {
            None
        }
    }

    /// Every variant, in declaration order.
    pub fn variants() -> (r: Vec<BattleQuery>)
        ensures
            r@ == seq![
                BattleQuery::Label,
                BattleQuery::Coordinates,
                BattleQuery::PartOf,
                BattleQuery::Person,
                BattleQuery::Country,
                BattleQuery::PointInTime,
                BattleQuery::Image,
                BattleQuery::Unknown,
            ],
    {
        let mut v: Vec<BattleQuery> = Vec::new();
        v.push(BattleQuery::Label);
        v.push(BattleQuery::Coordinates);
        v.push(BattleQuery::PartOf);
        v.push(BattleQuery::Person);
        v.push(BattleQuery::Country);
        v.push(BattleQuery::PointInTime);
        v.push(BattleQuery::Image);
        v.push(BattleQuery::Unknown);
        proof {
            assert(v@ =~= seq![
                BattleQuery::Label,
                BattleQuery::Coordinates,
                BattleQuery::PartOf,
                BattleQuery::Person,
                BattleQuery::Country,
                BattleQuery::PointInTime,
                BattleQuery::Image,
                BattleQuery::Unknown,
            ]);
        }
        v
    }
}

pub open spec fn spec_battle_filter() -> Seq<char> {
    "\n    ?battle wdt:P31 wd:Q178561 .\n"@
}

/// The shared graph pattern that selects battle entities.
fn battle_filter() -> (r: &'static str)
    ensures
        r@ == spec_battle_filter(),
{
    "\n    ?battle wdt:P31 wd:Q178561 .\n"
}

pub open spec fn spec_gen_battle_query(q: BattleQuery) -> Seq<char> {
    match q {
        BattleQuery::Label => "SELECT DISTINCT ?battle ?label ?language WHERE {\n                    "@
            + spec_battle_filter()
            + "\n                    ?battle rdfs:label ?label .\n                    BIND (LANG(?label) AS ?language)\n                }"@,
        BattleQuery::Coordinates => "SELECT DISTINCT ?battle ?coordinates WHERE {\n                    "@
            + spec_battle_filter()
            + "\n                    ?battle wdt:P625 ?coordinates .\n                }"@,
        BattleQuery::PartOf => "SELECT DISTINCT ?battle ?partOf WHERE {\n                    "@
            + spec_battle_filter()
            + "\n                    ?battle wdt:P361 ?partOf .\n                }"@,
        BattleQuery::Person => "SELECT DISTINCT ?battle ?person WHERE {\n                    "@
            + spec_battle_filter()
            + "\n                    ?battle wdt:P710 ?person .\n                    ?person wdt:P31 wd:Q5 .\n                }"@,
        BattleQuery::Country => "SELECT DISTINCT ?battle ?country WHERE {\n                    "@
            + spec_battle_filter()
            + "\n                    ?battle wdt:P710 ?country .\n                    "@
            + spec_country_filter()
            + "\n                }"@,
        BattleQuery::PointInTime => "SELECT DISTINCT ?battle ?pointInTime WHERE {\n                    "@
            + spec_battle_filter()
            + "\n                    ?battle wdt:P585 ?pointInTime .\n                }"@,
        BattleQuery::Image => "SELECT DISTINCT ?battle ?image WHERE {\n                    "@
            + spec_battle_filter()
            + "\n                    ?battle wdt:P18 ?image .\n                }"@,
        BattleQuery::Unknown => "Unknown"@,
    }
}

/// Render the ready-to-send query text of one variant.
pub fn gen_battle_query(battle_query: BattleQuery) -> (r: String)
    ensures
        r@ == spec_gen_battle_query(battle_query),
{
    match battle_query {
        BattleQuery::Label => concat3(
            "SELECT DISTINCT ?battle ?label ?language WHERE {\n                    ",
            battle_filter(),
            "\n                    ?battle rdfs:label ?label .\n                    BIND (LANG(?label) AS ?language)\n                }",
        ),
        BattleQuery::Coordinates => concat3(
            "SELECT DISTINCT ?battle ?coordinates WHERE {\n                    ",
            battle_filter(),
            "\n                    ?battle wdt:P625 ?coordinates .\n                }",
        ),
        BattleQuery::PartOf => concat3(
            "SELECT DISTINCT ?battle ?partOf WHERE {\n                    ",
            battle_filter(),
            "\n                    ?battle wdt:P361 ?partOf .\n                }",
        ),
        BattleQuery::Person => concat3(
            "SELECT DISTINCT ?battle ?person WHERE {\n                    ",
            battle_filter(),
            "\n                    ?battle wdt:P710 ?person .\n                    ?person wdt:P31 wd:Q5 .\n                }",
        ),
        BattleQuery::Country => String::from_str("SELECT DISTINCT ?battle ?country WHERE {\n                    ").concat(battle_filter()).concat("\n                    ?battle wdt:P710 ?country .\n                    ").concat(country_filter()).concat("\n                }"),
        BattleQuery::PointInTime => concat3(
            "SELECT DISTINCT ?battle ?pointInTime WHERE {\n                    ",
            battle_filter(),
            "\n                    ?battle wdt:P585 ?pointInTime .\n                }",
        ),
        BattleQuery::Image => concat3(
            "SELECT DISTINCT ?battle ?image WHERE {\n                    ",
            battle_filter(),
            "\n                    ?battle wdt:P18 ?image .\n                }",
        ),
        BattleQuery::Unknown => String::from_str("Unknown"),
    }
}

} // verus!
