//! Query templates for the battle category on the DBpedia endpoint.

use vstd::prelude::*;
use vstd::string::StringExecFns;
use crate::strutil::{concat3, str_eq};

verus! {

#[derive(Debug, Clone, Copy, PartialEq, Eq, Default)]
pub enum BattleQuery {
    Abstract,
    #[default]
    Unknown,
}

impl BattleQuery {
    pub open spec fn spec_name(self) -> Seq<char> {
        match self {
            BattleQuery::Abstract => "abstract"@,
            BattleQuery::Unknown => "Unknown"@,
        }
    }

    /// The display name of the variant, used as the fetch target name.
    pub fn name(&self) -> (r: &'static str)
        ensures
            r@ == self.spec_name(),
    {
        match self {
            BattleQuery::Abstract => "abstract",
            BattleQuery::Unknown => "Unknown",
        }
    }

    pub open spec fn spec_parse(s: Seq<char>) -> Option<BattleQuery> {
        if s == "abstract"@ {
            Some(BattleQuery::Abstract)
        } else if s == "Unknown"@ {
            Some(BattleQuery::Unknown)
        } else {
            None
        }
    }

    /// Parse a variant from its display name.
    pub fn parse(s: &str) -> (r: Option<BattleQuery>)
        ensures
            r == Self::spec_parse(s@),
    {
        if str_eq(s, "abstract") {
            Some(BattleQuery::Abstract)
        } else if str_eq(s, "Unknown") {
            Some(BattleQuery::Unknown)
        } else {
            None
        }
    }

    /// Every variant, in declaration order.
    pub fn variants() -> (r: Vec<BattleQuery>)
        ensures
            r@ == seq![
                BattleQuery::Abstract,
                BattleQuery::Unknown,
            ],
    {
        let mut v: Vec<BattleQuery> = Vec::new();
        v.push(BattleQuery::Abstract);
        v.push(BattleQuery::Unknown);
        proof {
            assert(v@ =~= seq![
                BattleQuery::Abstract,
                BattleQuery::Unknown,
            ]);
        }
        v
    }
}

pub open spec fn spec_battle_filter() -> Seq<char> {
    "\n    ?battle rdf:type dbo:MilitaryConflict .\n    ?battle rdf:type dbo:Event .\n"@
}

/// The shared graph pattern that selects battle entities.
fn battle_filter() -> (r: &'static str)
    ensures
        r@ == spec_battle_filter(),
{
    "\n    ?battle rdf:type dbo:MilitaryConflict .\n    ?battle rdf:type dbo:Event .\n"
}

pub open spec fn spec_gen_battle_query(q: BattleQuery) -> Seq<char> {
    match q {
        BattleQuery::Abstract => "prefix rdfs: <http://www.w3.org/2000/01/rdf-schema#>\n                prefix rdf: <http://www.w3.org/1999/02/22-rdf-syntax-ns#>\n                prefix dbo: <http://dbpedia.org/ontology/>\n                select distinct ?battle ?abstract ?language where {\n                    "@
            + spec_battle_filter()
            + "\n                    ?battle dbo:abstract ?abstract .\n                    BIND (LANG(?abstract) AS ?language)\n                }"@,
        BattleQuery::Unknown => "Unknown"@,
    }
}

/// Render the ready-to-send query text of one variant.
pub fn gen_battle_query(battle_query: BattleQuery) -> (r: String)
    ensures
        r@ == spec_gen_battle_query(battle_query),
{
    match battle_query {
        BattleQuery::Abstract => concat3(
            "prefix rdfs: <http://www.w3.org/2000/01/rdf-schema#>\n                prefix rdf: <http://www.w3.org/1999/02/22-rdf-syntax-ns#>\n                prefix dbo: <http://dbpedia.org/ontology/>\n                select distinct ?battle ?abstract ?language where {\n                    ",
            battle_filter(),
            "\n                    ?battle dbo:abstract ?abstract .\n                    BIND (LANG(?abstract) AS ?language)\n                }",
        ),
        BattleQuery::Unknown => String::from_str("Unknown"),
    }
}

} // verus!
