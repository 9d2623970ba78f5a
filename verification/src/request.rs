//! The computed parts of one fetch: which query text a (category, target)
//! pair selects on each endpoint, the request URL, and the file paths under
//! which results are stored.

use vstd::prelude::*;
use vstd::string::StringExecFns;
use crate::dbpedia_queries;
use crate::errors::ParseError;
use crate::queries;

verus! {

#[derive(Debug, Clone, Copy, PartialEq, Eq)]
pub enum SparqlEndpoint {
    Dbpedia,
    Wikidata,
}

impl SparqlEndpoint {
    pub open spec fn spec_name(self) -> Seq<char> {
        match self {
            SparqlEndpoint::Dbpedia => "dbpedia"@,
            SparqlEndpoint::Wikidata => "wikidata"@,
        }
    }

    /// The directory name under which this endpoint's results are stored.
    pub fn name(&self) -> (r: &'static str)
        ensures
            r@ == self.spec_name(),
    {
        match self {
            SparqlEndpoint::Dbpedia => "dbpedia",
            SparqlEndpoint::Wikidata => "wikidata",
        }
    }

    pub open spec fn spec_uri(self) -> Seq<char> {
        match self {
            SparqlEndpoint::Dbpedia => "https://dbpedia.org/sparql"@,
            SparqlEndpoint::Wikidata => "https://query.wikidata.org/sparql"@,
        }
    }

    /// The query service URI of this endpoint.
    pub fn uri(&self) -> (r: &'static str)
        ensures
            r@ == self.spec_uri(),
    {
        match self {
            SparqlEndpoint::Dbpedia => "https://dbpedia.org/sparql",
            SparqlEndpoint::Wikidata => "https://query.wikidata.org/sparql",
        }
    }
}

/// What percent-encoding a string yields; a function of the characters alone.
pub uninterp spec fn url_encoded(s: Seq<char>) -> Seq<char>;

/// Relies on `urlencoding::encode`: percent-encodes every byte except
/// alphanumerics and `-`, `_`, `.`, `~`; the result depends on the input
/// characters alone.
#[verifier::external_body]
fn encode_query(s: &str) -> (r: String)
    ensures
        r@ == url_encoded(s@),
{
    urlencoding::encode(s).into_owned()
}

/// The query text that one fetch sends, selected by endpoint, category and
/// target. Succeeds exactly when the endpoint's catalog resolves the pair.
pub open spec fn spec_fetch_query(
    e: SparqlEndpoint,
    c: Seq<char>,
    t: Seq<char>,
) -> Result<Seq<char>, ParseError> {
    match e {
        SparqlEndpoint::Dbpedia => match dbpedia_queries::get_query::spec_get_query_type(c, t) {
            Ok(q) => Ok(dbpedia_queries::get_query::spec_gen_query(q)),
            Err(err) => Err(err),
        },
        SparqlEndpoint::Wikidata => match queries::get_query::spec_get_query_type(c, t) {
            Ok(q) => Ok(queries::get_query::spec_gen_query(q)),
            Err(err) => Err(err),
        },
    }
}

/// Select and render the query text that a fetch of (category, target) sends
/// to the given endpoint.
pub fn fetch_query(endpoint: &SparqlEndpoint, category: &str, target: &str) -> (r: Result<
    String,
    ParseError,
>)
    ensures
        match r {
            Ok(s) => spec_fetch_query(*endpoint, category@, target@) == Ok::<Seq<char>, ParseError>(
                s@,
            ),
            Err(e) => spec_fetch_query(*endpoint, category@, target@) == Err::<
                Seq<char>,
                ParseError,
            >(e),
        },
{
    match endpoint {
        SparqlEndpoint::Dbpedia => match dbpedia_queries::get_query::get_query_type(
            category,
            target,
        ) {
            Ok(q) => Ok(dbpedia_queries::get_query::gen_query(q)),
            Err(err) => Err(err),
        },
        SparqlEndpoint::Wikidata => match queries::get_query::get_query_type(
            String::from_str(category),
            String::from_str(target),
        ) {
            Ok(q) => Ok(queries::get_query::gen_query(q)),
            Err(err) => Err(err),
        },
    }
}

/// The URL of one fetch: the endpoint URI with the percent-encoded query and
/// the JSON format flag as query parameters.
pub fn build_request_url(endpoint: &SparqlEndpoint, sparql: &str) -> (r: String)
    ensures
        r@ == endpoint.spec_uri() + "?query="@ + url_encoded(sparql@) + "&format=json"@,
{
    String::from_str(endpoint.uri()).concat("?query=").concat(encode_query(sparql).as_str()).concat(
        "&format=json",
    )
}

/// The directory a fetch writes into: `<data_dir>/sparql/<endpoint>/<category>`.
pub fn fetch_dir(data_dir: &str, endpoint: &SparqlEndpoint, category: &str) -> (r: String)
    ensures
        r@ == data_dir@ + "/sparql/"@ + endpoint.spec_name() + "/"@ + category@,
{
    String::from_str(data_dir).concat("/sparql/").concat(endpoint.name()).concat("/").concat(
        category,
    )
}

/// The file one fetch writes: `<target>.json` inside the fetch directory.
pub fn fetch_file_name(target: &str) -> (r: String)
    ensures
        r@ == target@ + ".json"@,
{
    String::from_str(target).concat(".json")
}

/// The directory the aggregation step reads: `<output>/sparql/<category>`.
pub fn merge_dir(output: &str, category: &str) -> (r: String)
    ensures
        r@ == output@ + "/sparql/"@ + category@,
{
    String::from_str(output).concat("/sparql/").concat(category)
}

/// The directory the aggregated document is written into: `<output>/result`.
pub fn result_dir(output: &str) -> (r: String)
    ensures
        r@ == output@ + "/result"@,
{
    String::from_str(output).concat("/result")
}

/// The file the aggregated document is written to:
/// `<output>/result/<category>.json`.
pub fn result_file_path(output: &str, category: &str) -> (r: String)
    ensures
        r@ == output@ + "/result/"@ + category@ + ".json"@,
{
    String::from_str(output).concat("/result/").concat(category).concat(".json")
}

} // verus!
