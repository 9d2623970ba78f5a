use sparql_kit::dbpedia_queries::get_query as db_get_query;
use sparql_kit::dbpedia_queries::country::CountryQuery as DbCountryQuery;
use sparql_kit::errors::ParseError;
use sparql_kit::queries::country::CountryQuery;
use sparql_kit::queries::get_query::{get_query_type, QueryTypes};

#[test]
fn get_query_test_get_query() {
    let query = get_query_type("Country".to_string(), "Inception".to_string());
    assert_eq!(query, Ok(QueryTypes::Country(CountryQuery::Inception)));

    let query = get_query_type("Country".to_string(), "Dissolution".to_string());
    assert_eq!(query, Ok(QueryTypes::Country(CountryQuery::Dissolution)));

    let query = get_query_type("hoge".to_string(), "hoge".to_string());
    assert_eq!(query, Err(ParseError::VariantNotFound));

    let query = get_query_type("Country".to_string(), "hoge".to_string());
    assert_eq!(query, Err(ParseError::VariantNotFound));

    let query = get_query_type("State".to_string(), "hoge".to_string());
    assert_eq!(query, Err(ParseError::VariantNotFound));

    let query = get_query_type("League".to_string(), "hoge".to_string());
    assert_eq!(query, Err(ParseError::VariantNotFound));

    let query = get_query_type("League".to_string(), "hoge".to_string());
    assert_eq!(query, Err(ParseError::VariantNotFound));
}

#[test]
fn test_get_query() {
    let query = db_get_query::get_query_type("country", "inception");
    assert_eq!(
        query,
        Ok(db_get_query::QueryTypes::Country(DbCountryQuery::Inception))
    );

    let query = db_get_query::get_query_type("hoge", "hoge");
    assert_eq!(query, Err(ParseError::VariantNotFound));

    let query = db_get_query::get_query_type("country", "hoge");
    assert_eq!(query, Err(ParseError::VariantNotFound));
}

#[test]
fn category_names_round_trip() {
    for category in QueryTypes::variants() {
        let name = category.name().to_string();
        let parsed = get_query_type(name, "Unknown".to_string());
        assert!(parsed.is_ok(), "Failed for category: {:?}", category);
    }
}

#[test]
fn variant_names_parse_back() {
    for variant in CountryQuery::variants() {
        assert_eq!(CountryQuery::parse(variant.name()), Some(variant));
    }
    assert_eq!(CountryQuery::parse("inception"), None);
}
