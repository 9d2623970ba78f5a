//! Fetching and aggregation of knowledge-graph SPARQL query results: a
//! catalog of query templates per category and variant, the request and
//! storage-path computations of one fetch, and an aggregation engine that
//! classifies solution rows by the optional columns they bind and folds them
//! into one document keyed by entity IRI.

pub mod aggregate;
pub mod dbpedia_queries;
pub mod errors;
pub mod queries;
pub mod request;
pub mod string_map;
pub mod strutil;
pub mod wikidata_queries;
