use sparql_kit::dbpedia_queries::battle::{gen_battle_query as gen_db_battle_query, BattleQuery as DbBattleQuery};
use sparql_kit::queries::country::{gen_country_query, CountryQuery};
use sparql_kit::queries::league::{gen_league_query, LeagueQuery};
use sparql_kit::queries::league_member::{gen_league_member_query, LeagueMemberQuery};
use sparql_kit::queries::state::{gen_state_query, StateQuery};
use sparql_kit::queries::war::{gen_war_query, WarQuery};
use sparql_kit::wikidata_queries::battle::{gen_battle_query, BattleQuery};
use sparql_kit::wikidata_queries::capital::{gen_capital_query, CapitalQuery};

#[test]
fn test_queries_start_with_abstract() {
    for variant in DbBattleQuery::variants() {
        if variant == DbBattleQuery::Unknown {
            continue;
        }
        let query = gen_db_battle_query(variant);
        assert!(
            query.starts_with("prefix"),
            "Failed for variant: {:?}",
            variant
        );
    }
}

#[test]
fn country_test_queries_start_with_select_distinct() {
    for variant in CountryQuery::variants() {
        if variant == CountryQuery::Unknown {
            continue;
        }
        let query = gen_country_query(variant);
        assert!(
            query.starts_with("SELECT DISTINCT"),
            "Failed for variant: {:?}",
            variant
        );
    }
}

#[test]
fn league_test_queries_start_with_select_distinct() {
    for variant in LeagueQuery::variants() {
        if variant == LeagueQuery::Unknown {
            continue;
        }
        let query = gen_league_query(variant);
        assert!(
            query.starts_with("SELECT DISTINCT"),
            "Failed for variant: {:?}",
            variant
        );
    }
}

#[test]
fn league_member_test_queries_start_with_select_distinct() {
    for variant in LeagueMemberQuery::variants() {
        if variant == LeagueMemberQuery::Unknown {
            continue;
        }
        let query = gen_league_member_query(variant);
        assert!(
            query.starts_with("SELECT DISTINCT"),
            "Failed for variant: {:?}",
            variant
        );
    }
}

#[test]
fn state_test_queries_start_with_select_distinct() {
    for variant in StateQuery::variants() {
        if variant == StateQuery::Unknown {
            continue;
        }
        let query = gen_state_query(variant);
        assert!(
            query.starts_with("SELECT DISTINCT"),
            "Failed for variant: {:?}",
            variant
        );
    }
}

#[test]
fn war_test_queries_start_with_select_distinct() {
    for variant in WarQuery::variants() {
        if variant == WarQuery::Unknown {
            continue;
        }
        let query = gen_war_query(variant);
        assert!(
            query.starts_with("SELECT DISTINCT"),
            "Failed for variant: {:?}",
            variant
        );
    }
}

#[test]
fn battle_test_queries_start_with_select_distinct() {
    for variant in BattleQuery::variants() {
        if variant == BattleQuery::Unknown {
            continue;
        }
        let query = gen_battle_query(variant);
        assert!(
            query.starts_with("SELECT DISTINCT"),
            "Failed for variant: {:?}",
            variant
        );
    }
}

#[test]
fn capital_test_queries_start_with_select_distinct() {
    for variant in CapitalQuery::variants() {
        if variant == CapitalQuery::Unknown {
            continue;
        }
        let query = gen_capital_query(variant);
        assert!(
            query.starts_with("SELECT DISTINCT"),
            "Failed for variant: {:?}",
            variant
        );
    }
}

#[test]
fn country_inception_query_exact_text() {
    let filter = "\n{\n?country wdt:P31 wd:Q6256 .\n} UNION {\n?country wdt:P31 wd:Q3024240 .\n}\n";
    let expected = format!(
        "SELECT DISTINCT ?country ?inception WHERE {{\n                    {}\n                    ?country wdt:P571 ?inception .\n                }}",
        filter
    );
    assert_eq!(gen_country_query(CountryQuery::Inception), expected);
}

#[test]
fn war_country_query_holds_both_filters() {
    let query = gen_war_query(WarQuery::Country);
    assert!(query.contains("?war wdt:P31/wdt:P279* wd:Q198 ."));
    assert!(query.contains("?country wdt:P31 wd:Q6256 ."));
    assert!(query.contains("?war wdt:P710 ?country ."));
}

#[test]
fn unknown_variants_render_placeholders() {
    assert_eq!(gen_country_query(CountryQuery::Unknown), "Unknown");
    assert_eq!(gen_state_query(StateQuery::Unknown), "Unknown");
    assert_eq!(gen_war_query(WarQuery::Unknown), "Unknown");
    assert_eq!(gen_capital_query(CapitalQuery::Unknown), "Unknown");
    assert_eq!(gen_battle_query(BattleQuery::Unknown), "Unknown");
    assert_eq!(gen_db_battle_query(DbBattleQuery::Unknown), "Unknown");
    assert_eq!(gen_league_member_query(LeagueMemberQuery::Unknown), "");
    // the league catalog renders its placeholder as the label query
    assert_eq!(
        gen_league_query(LeagueQuery::Unknown),
        gen_league_query(LeagueQuery::Label)
    );
}
