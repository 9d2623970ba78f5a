use sparql_kit::errors::ParseError;
use sparql_kit::request::{
    build_request_url, fetch_dir, fetch_file_name, fetch_query, merge_dir, result_dir,
    result_file_path, SparqlEndpoint,
};

#[test]
fn request_url_percent_encodes_the_query() {
    let url = build_request_url(&SparqlEndpoint::Wikidata, "a b");
    assert_eq!(url, "https://query.wikidata.org/sparql?query=a%20b&format=json");
}

#[test]
fn request_url_keeps_unreserved_characters() {
    let url = build_request_url(&SparqlEndpoint::Dbpedia, "abc-_.~09");
    assert_eq!(url, "https://dbpedia.org/sparql?query=abc-_.~09&format=json");
}

#[test]
fn endpoint_names_and_uris() {
    assert_eq!(SparqlEndpoint::Dbpedia.name(), "dbpedia");
    assert_eq!(SparqlEndpoint::Wikidata.name(), "wikidata");
    assert_eq!(SparqlEndpoint::Dbpedia.uri(), "https://dbpedia.org/sparql");
    assert_eq!(SparqlEndpoint::Wikidata.uri(), "https://query.wikidata.org/sparql");
}

#[test]
fn storage_paths() {
    assert_eq!(
        fetch_dir("data", &SparqlEndpoint::Wikidata, "Country"),
        "data/sparql/wikidata/Country"
    );
    assert_eq!(fetch_file_name("Label"), "Label.json");
    assert_eq!(merge_dir("data", "Country"), "data/sparql/Country");
    assert_eq!(result_dir("data"), "data/result");
    assert_eq!(result_file_path("data", "Country"), "data/result/Country.json");
}

#[test]
fn fetch_query_selects_the_catalog_of_the_endpoint() {
    let wikidata = fetch_query(&SparqlEndpoint::Wikidata, "Country", "Label").unwrap();
    assert!(wikidata.starts_with("SELECT DISTINCT ?country ?label"));

    let dbpedia = fetch_query(&SparqlEndpoint::Dbpedia, "battle", "abstract").unwrap();
    assert!(dbpedia.starts_with("prefix"));

    assert_eq!(
        fetch_query(&SparqlEndpoint::Wikidata, "battle", "abstract"),
        Err(ParseError::VariantNotFound)
    );
    assert_eq!(
        fetch_query(&SparqlEndpoint::Dbpedia, "Country", "Label"),
        Err(ParseError::VariantNotFound)
    );
}
