use sparql_kit::aggregate::{aggregate, AggregatedDocument, EntityRecord, TemporalPayload};
use sparql_kit::errors::MalformedBindingError;
use sparql_kit::queries::sparql_types::{Binding, Head, Object, Results, SparqlResponse};
use sparql_kit::string_map::StringMap;

fn term(value: &str) -> Object {
    Object { kind: "uri".to_string(), datatype: None, value: value.to_string() }
}

fn binding(cols: &[(&str, &str)]) -> Binding {
    let mut b: Binding = StringMap::new();
    for (k, v) in cols {
        b.insert((*k).to_string(), term(v));
    }
    b
}

fn response(rows: Vec<Binding>) -> SparqlResponse {
    SparqlResponse { head: Head { vars: vec![] }, results: Results { bindings: rows } }
}

fn record<'a>(doc: &'a AggregatedDocument, key: &str) -> &'a EntityRecord {
    doc.get(key).expect("entity record missing")
}

#[test]
fn capital_with_interval() {
    let rows = vec![binding(&[
        ("country", "Q1"),
        ("capital", "Q2"),
        ("startTime", "1990"),
        ("endTime", "2000"),
    ])];
    let doc = aggregate("country", &vec![response(rows)]).unwrap();
    let rec = record(&doc, "Q1");
    let capital = rec.capital.as_ref().expect("capital map missing");
    assert_eq!(
        capital.get("Q2"),
        Some(&TemporalPayload::StartEnd {
            start_time: "1990".to_string(),
            end_time: "2000".to_string(),
        })
    );
    assert_eq!(capital.len(), 1);
}

#[test]
fn capital_with_point_in_time() {
    let rows = vec![binding(&[
        ("country", "Q1"),
        ("capital", "Q2"),
        ("pointInTime", "1955"),
    ])];
    let doc = aggregate("country", &vec![response(rows)]).unwrap();
    let capital = record(&doc, "Q1").capital.as_ref().unwrap();
    assert_eq!(
        capital.get("Q2"),
        Some(&TemporalPayload::PointInTime { point_in_time: "1955".to_string() })
    );
}

#[test]
fn capital_without_temporal_columns() {
    let rows = vec![binding(&[("country", "Q1"), ("capital", "Q2")])];
    let doc = aggregate("country", &vec![response(rows)]).unwrap();
    let capital = record(&doc, "Q1").capital.as_ref().unwrap();
    assert_eq!(capital.get("Q2"), Some(&TemporalPayload::Empty));
}

#[test]
fn capital_start_without_end_falls_back_to_point() {
    let rows = vec![binding(&[
        ("country", "Q1"),
        ("capital", "Q2"),
        ("startTime", "1990"),
        ("pointInTime", "1955"),
    ])];
    let doc = aggregate("country", &vec![response(rows)]).unwrap();
    let capital = record(&doc, "Q1").capital.as_ref().unwrap();
    assert_eq!(
        capital.get("Q2"),
        Some(&TemporalPayload::PointInTime { point_in_time: "1955".to_string() })
    );
}

#[test]
fn capital_overwrites_prior_entry_for_same_iri() {
    let rows = vec![
        binding(&[("country", "Q1"), ("capital", "Q2"), ("pointInTime", "1955")]),
        binding(&[("country", "Q1"), ("capital", "Q2")]),
    ];
    let doc = aggregate("country", &vec![response(rows)]).unwrap();
    let capital = record(&doc, "Q1").capital.as_ref().unwrap();
    assert_eq!(capital.get("Q2"), Some(&TemporalPayload::Empty));
    assert_eq!(capital.len(), 1);
}

#[test]
fn labels_keyed_by_language() {
    let rows = vec![
        binding(&[("state", "Q3"), ("label", "Foo"), ("language", "en")]),
        binding(&[("state", "Q3"), ("label", "Bar"), ("language", "fr")]),
    ];
    let doc = aggregate("state", &vec![response(rows)]).unwrap();
    let label = record(&doc, "Q3").label.as_ref().expect("label map missing");
    assert_eq!(label.get("en"), Some(&"Foo".to_string()));
    assert_eq!(label.get("fr"), Some(&"Bar".to_string()));
    assert_eq!(label.len(), 2);
}

#[test]
fn label_for_same_language_overwrites() {
    let rows = vec![
        binding(&[("state", "Q3"), ("label", "Foo"), ("language", "en")]),
        binding(&[("state", "Q3"), ("label", "Baz"), ("language", "en")]),
    ];
    let doc = aggregate("state", &vec![response(rows)]).unwrap();
    let label = record(&doc, "Q3").label.as_ref().unwrap();
    assert_eq!(label.get("en"), Some(&"Baz".to_string()));
    assert_eq!(label.len(), 1);
}

#[test]
fn generic_column_appends_in_order_with_duplicates() {
    let rows = vec![
        binding(&[("war", "Q4"), ("country", "Q5")]),
        binding(&[("war", "Q4"), ("country", "Q6")]),
        binding(&[("war", "Q4"), ("country", "Q5")]),
    ];
    let doc = aggregate("war", &vec![response(rows)]).unwrap();
    let countries = record(&doc, "Q4").generic.get("country").expect("generic list missing");
    assert_eq!(
        countries,
        &vec!["Q5".to_string(), "Q6".to_string(), "Q5".to_string()]
    );
}

#[test]
fn zero_or_many_leftover_columns_contribute_nothing() {
    let rows = vec![
        binding(&[("war", "Q4")]),
        binding(&[("war", "Q4"), ("person", "Q7"), ("image", "x.png")]),
    ];
    let doc = aggregate("war", &vec![response(rows)]).unwrap();
    let rec = record(&doc, "Q4");
    assert!(rec.label.is_none());
    assert!(rec.capital.is_none());
    assert_eq!(rec.generic.len(), 0);
    assert_eq!(doc.len(), 1);
}

#[test]
fn capital_rule_wins_over_label_rule() {
    let rows = vec![binding(&[
        ("country", "Q1"),
        ("capital", "Q2"),
        ("label", "Foo"),
        ("language", "en"),
    ])];
    let doc = aggregate("country", &vec![response(rows)]).unwrap();
    let rec = record(&doc, "Q1");
    assert!(rec.capital.is_some());
    assert!(rec.label.is_none());
    assert_eq!(rec.generic.len(), 0);
}

#[test]
fn every_category_value_becomes_a_key_and_no_other() {
    let rows = vec![
        binding(&[("war", "Q4"), ("country", "Q5")]),
        binding(&[("war", "Q8")]),
        binding(&[("war", "Q4"), ("image", "x.png")]),
        binding(&[("war", "Q9"), ("label", "W"), ("language", "en")]),
    ];
    let doc = aggregate("war", &vec![response(rows)]).unwrap();
    assert_eq!(doc.len(), 3);
    assert!(doc.get("Q4").is_some());
    assert!(doc.get("Q8").is_some());
    assert!(doc.get("Q9").is_some());
    assert!(doc.get("Q5").is_none());
}

#[test]
fn rows_fold_across_result_sets_in_order() {
    let first = response(vec![binding(&[("war", "Q4"), ("country", "Q5")])]);
    let second = response(vec![binding(&[("war", "Q4"), ("country", "Q6")])]);
    let doc = aggregate("war", &vec![first, second]).unwrap();
    let countries = record(&doc, "Q4").generic.get("country").unwrap();
    assert_eq!(countries, &vec!["Q5".to_string(), "Q6".to_string()]);
}

#[test]
fn aggregation_is_deterministic() {
    let build = || {
        vec![
            response(vec![
                binding(&[("war", "Q4"), ("country", "Q5")]),
                binding(&[("war", "Q4"), ("label", "X"), ("language", "en")]),
            ]),
            response(vec![binding(&[("war", "Q9"), ("country", "Q5")])]),
        ]
    };
    let d1 = aggregate("war", &build()).unwrap();
    let d2 = aggregate("war", &build()).unwrap();
    assert_eq!(d1, d2);
}

#[test]
fn missing_category_column_fails_fast() {
    let rows = vec![
        binding(&[("war", "Q4"), ("country", "Q5")]),
        binding(&[("country", "Q5")]),
    ];
    let r = aggregate("war", &vec![response(rows)]);
    assert_eq!(r, Err(MalformedBindingError { result_set: 0, row: 1 }));
}

#[test]
fn missing_category_in_later_result_set_names_it() {
    let first = response(vec![binding(&[("war", "Q4"), ("country", "Q5")])]);
    let second = response(vec![binding(&[("label", "X"), ("language", "en")])]);
    let r = aggregate("war", &vec![first, second]);
    assert_eq!(r, Err(MalformedBindingError { result_set: 1, row: 0 }));
}

#[test]
fn string_map_insert_get_remove() {
    let mut m: StringMap<Object> = StringMap::new();
    assert_eq!(m.len(), 0);
    m.insert("a".to_string(), term("1"));
    m.insert("b".to_string(), term("2"));
    m.insert("a".to_string(), term("3"));
    assert_eq!(m.len(), 2);
    assert_eq!(m.get("a").map(|t| t.value.as_str()), Some("3"));
    assert_eq!(m.get("b").map(|t| t.value.as_str()), Some("2"));
    assert!(m.get("c").is_none());
    assert_eq!(m.key_at(0), "a");
    assert_eq!(m.key_at(1), "b");
    let removed = m.remove("a");
    assert_eq!(removed.map(|t| t.value), Some("3".to_string()));
    assert_eq!(m.len(), 1);
    assert!(!m.contains_key("a"));
}
