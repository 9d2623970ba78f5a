//! The result aggregation engine: classifies every solution row of a set of
//! SPARQL result documents by the optional columns it binds, and folds all
//! rows into one document keyed by entity IRI.

use vstd::prelude::*;
use crate::errors::MalformedBindingError;
use crate::queries::sparql_types::{Binding, BindingView, SparqlResponse};
use crate::string_map::StringMap;
use crate::strutil::str_eq;

verus! {

/// The temporal qualifier stored with one capital relationship: either a
/// start/end interval, a single point in time, or nothing.
#[derive(Debug, PartialEq, Eq)]
pub enum TemporalPayload {
    StartEnd { start_time: String, end_time: String },
    PointInTime { point_in_time: String },
    Empty,
}

pub ghost enum TemporalPayloadView {
    StartEnd { start_time: Seq<char>, end_time: Seq<char> },
    PointInTime { point_in_time: Seq<char> },
    Empty,
}

impl View for TemporalPayload {
    type V = TemporalPayloadView;

    open spec fn view(&self) -> TemporalPayloadView {
        match self {
            TemporalPayload::StartEnd { start_time, end_time } => TemporalPayloadView::StartEnd {
                start_time: start_time@,
                end_time: end_time@,
            },
            TemporalPayload::PointInTime { point_in_time } => TemporalPayloadView::PointInTime {
                point_in_time: point_in_time@,
            },
            TemporalPayload::Empty => TemporalPayloadView::Empty,
        }
    }
}

impl DeepView for TemporalPayload {
    type V = TemporalPayloadView;

    open spec fn deep_view(&self) -> TemporalPayloadView {
        self.view()
    }
}

/// The dynamically-shaped record aggregated for one entity: labels by
/// language, capitals by IRI with their temporal payload, and generic
/// append-only value lists by column name.
#[derive(Debug, PartialEq, Eq)]
pub struct EntityRecord {
    pub label: Option<StringMap<String>>,
    pub capital: Option<StringMap<TemporalPayload>>,
    pub generic: StringMap<Vec<String>>,
}

pub ghost struct EntityRecordView {
    pub label: Option<Map<Seq<char>, Seq<char>>>,
    pub capital: Option<Map<Seq<char>, TemporalPayloadView>>,
    pub generic: Map<Seq<char>, Seq<Seq<char>>>,
}

impl View for EntityRecord {
    type V = EntityRecordView;

    open spec fn view(&self) -> EntityRecordView {
        EntityRecordView {
            label: match &self.label {
                Some(m) => Some(m@),
                None => None,
            },
            capital: match &self.capital {
                Some(m) => Some(m@),
                None => None,
            },
            generic: self.generic@,
        }
    }
}

impl DeepView for EntityRecord {
    type V = EntityRecordView;

    open spec fn deep_view(&self) -> EntityRecordView {
        self.view()
    }
}

pub open spec fn empty_record_view() -> EntityRecordView {
    EntityRecordView { label: None, capital: None, generic: Map::empty() }
}

impl EntityRecord {
    /// A record with nothing aggregated into it yet.
    pub fn new() -> (r: Self)
        ensures
            r@ == empty_record_view(),
    {
        EntityRecord { label: None, capital: None, generic: StringMap::new() }
    }
}

/// The aggregated per-entity document of one category.
pub type AggregatedDocument = StringMap<EntityRecord>;

pub type DocumentView = Map<Seq<char>, EntityRecordView>;

/// How one solution row is folded into the document, decided only by which
/// columns the row binds, in this priority order: a `capital` column wins,
/// then a `label`/`language` pair, then a single leftover column; anything
/// else is discarded.
#[derive(Debug, PartialEq, Eq)]
pub enum RowClass {
    CapitalRow,
    LabelRow,
    GenericRow(String),
    Unclassified,
}

pub ghost enum RowClassView {
    CapitalRow,
    LabelRow,
    GenericRow(Seq<char>),
    Unclassified,
}

impl View for RowClass {
    type V = RowClassView;

    open spec fn view(&self) -> RowClassView {
        match self {
            RowClass::CapitalRow => RowClassView::CapitalRow,
            RowClass::LabelRow => RowClassView::LabelRow,
            RowClass::GenericRow(k) => RowClassView::GenericRow(k@),
            RowClass::Unclassified => RowClassView::Unclassified,
        }
    }
}

/// The columns a row binds besides the category column.
pub open spec fn leftover_columns(cat: Seq<char>, b: BindingView) -> Set<Seq<char>> {
    b.dom().remove(cat)
}

pub open spec fn classify_spec(cat: Seq<char>, b: BindingView) -> RowClassView {
    if b.contains_key("capital"@) {
        RowClassView::CapitalRow
    } else if b.contains_key("label"@) && b.contains_key("language"@) {
        RowClassView::LabelRow
    } else if leftover_columns(cat, b).len() == 1 {
        RowClassView::GenericRow(leftover_columns(cat, b).choose())
    } else {
        RowClassView::Unclassified
    }
}

/// Classify one row. The returned class is exactly `classify_spec`; when it
/// names a generic column, that column is bound by the row and differs from
/// the category column.
pub fn classify(category: &str, binding: &Binding) -> (r: RowClass)
    requires
        binding@.contains_key(category@),
    ensures
        r@ == classify_spec(category@, binding@),
        r@ matches RowClassView::GenericRow(k) ==> binding@.contains_key(k) && k != category@,
{
    if binding.contains_key("capital") {
        RowClass::CapitalRow
    } else if binding.contains_key("label") && binding.contains_key("language") {
        RowClass::LabelRow
    } else {
        let n = binding.len();
        let ghost ks = binding.key_seq();
        let ghost dom = binding@.dom();
        let ghost left = leftover_columns(category@, binding@);
        proof {
            assert(ks.to_set().contains(category@));
            assert(left.len() == dom.len() - 1);
        }
        if n == 2 {
            let k0_is_cat = str_eq(binding.key_at(0).as_str(), category);
            let k = if k0_is_cat {
                binding.key_at(1)
            } else {
                binding.key_at(0)
            };
            proof {
                assert forall|x: Seq<char>| dom.contains(x) implies x == ks[0] || x == ks[1] by {
                    let i = choose|i: int| 0 <= i < ks.len() && ks[i] == x;
                    assert(i == 0 || i == 1);
                }
                assert(dom.contains(ks[0]) && dom.contains(ks[1]));
                assert(ks[0] != ks[1]);
                assert(left.contains(k@));
                assert(left.contains(left.choose()));
                assert(left.choose() == k@);
            }
            RowClass::GenericRow(k.clone())
        } else {
            proof {
                assert(dom.len() >= 1) by {
                    if dom.len() == 0 {
                        vstd::set_lib::lemma_set_empty_equivalency_len(dom);
                    }
                }
                assert(left.len() != 1);
            }
            RowClass::Unclassified
        }
    }
}

/// The temporal payload a capital row carries: a start/end pair when both
/// bounds are bound, else a point in time when bound, else nothing.
pub open spec fn payload_spec(b: BindingView) -> TemporalPayloadView {
    if b.contains_key("startTime"@) && b.contains_key("endTime"@) {
        TemporalPayloadView::StartEnd {
            start_time: b["startTime"@].value,
            end_time: b["endTime"@].value,
        }
    } else if b.contains_key("pointInTime"@) {
        TemporalPayloadView::PointInTime { point_in_time: b["pointInTime"@].value }
    } else {
        TemporalPayloadView::Empty
    }
}

/// Build the temporal payload of a capital row.
pub fn build_payload(binding: &Binding) -> (r: TemporalPayload)
    ensures
        r@ == payload_spec(binding@),
{
    let st_opt = binding.get("startTime");
    let et_opt = binding.get("endTime");
    match (st_opt, et_opt) {
        (Some(st), Some(et)) => TemporalPayload::StartEnd {
            start_time: st.value.clone(),
            end_time: et.value.clone(),
        },
        _ => match binding.get("pointInTime") {
            Some(p) => TemporalPayload::PointInTime { point_in_time: p.value.clone() },
            None => TemporalPayload::Empty,
        },
    }
}

/// The record stored for an entity, or a fresh one the first time the entity
/// is seen.
pub open spec fn record_for(doc: DocumentView, ek: Seq<char>) -> EntityRecordView {
    if doc.contains_key(ek) {
        doc[ek]
    } else {
        empty_record_view()
    }
}

/// How one row updates the record of its entity.
pub open spec fn apply_to_record(
    cat: Seq<char>,
    b: BindingView,
    rec: EntityRecordView,
) -> EntityRecordView {
    match classify_spec(cat, b) {
        RowClassView::CapitalRow => {
            let m = match rec.capital {
                Some(m) => m,
                None => Map::empty(),
            };
            EntityRecordView {
                capital: Some(m.insert(b["capital"@].value, payload_spec(b))),
                ..rec
            }
        },
        RowClassView::LabelRow => {
            let m = match rec.label {
                Some(m) => m,
                None => Map::empty(),
            };
            EntityRecordView { label: Some(m.insert(b["language"@].value, b["label"@].value)), ..rec }
        },
        RowClassView::GenericRow(k) => {
            let vs = if rec.generic.contains_key(k) {
                rec.generic[k]
            } else {
                Seq::empty()
            };
            EntityRecordView { generic: rec.generic.insert(k, vs.push(b[k].value)), ..rec }
        },
        RowClassView::Unclassified => rec,
    }
}

/// How one row updates the whole document: its entity's record is created if
/// absent and updated according to the row's class.
pub open spec fn apply_binding(cat: Seq<char>, doc: DocumentView, b: BindingView) -> DocumentView {
    doc.insert(b[cat].value, apply_to_record(cat, b, record_for(doc, b[cat].value)))
}

/// Fold a sequence of rows into a document, in order.
pub open spec fn apply_bindings(cat: Seq<char>, doc: DocumentView, bs: Seq<BindingView>) -> DocumentView
    decreases bs.len(),
{
    if bs.len() == 0 {
        doc
    } else {
        apply_binding(cat, apply_bindings(cat, doc, bs.drop_last()), bs.last())
    }
}

/// Fold one row into the document.
pub fn apply_row(doc: &mut AggregatedDocument, category: &str, binding: &Binding)
    requires
        binding@.contains_key(category@),
    ensures
        final(doc)@ == apply_binding(category@, old(doc)@, binding@),
{
    let ek_obj = match binding.get(category) {
        Some(t) => t,
        None => vstd::pervasive::unreached(),
    };
    let ek = ek_obj.value.clone();
    let ghost rec_before = record_for(old(doc)@, ek@);
    let rec = match doc.remove(ek.as_str()) {
        Some(r) => r,
        None => EntityRecord::new(),
    };
    proof {
        assert(rec@ == rec_before);
    }
    let EntityRecord { mut label, mut capital, mut generic } = rec;
    match classify(category, binding) {
        RowClass::CapitalRow => {
            let cap_obj = match binding.get("capital") {
                Some(t) => t,
                None => vstd::pervasive::unreached(),
            };
            let payload = build_payload(binding);
            let mut m = match capital {
                Some(m0) => m0,
                None => StringMap::new(),
            };
            m.insert(cap_obj.value.clone(), payload);
            capital = Some(m);
        },
        RowClass::LabelRow => {
            let lab_obj = match binding.get("label") {
                Some(t) => t,
                None => vstd::pervasive::unreached(),
            };
            let lang_obj = match binding.get("language") {
                Some(t) => t,
                None => vstd::pervasive::unreached(),
            };
            let mut m = match label {
                Some(m0) => m0,
                None => StringMap::new(),
            };
            m.insert(lang_obj.value.clone(), lab_obj.value.clone());
            label = Some(m);
        },
        RowClass::GenericRow(k) => {
            let v_obj = match binding.get(k.as_str()) {
                Some(t) => t,
                None => vstd::pervasive::unreached(),
            };
            let value = v_obj.value.clone();
            let mut vals = match generic.remove(k.as_str()) {
                Some(v) => v,
                None => Vec::new(),
            };
            let ghost vals_before = vals.deep_view();
            vals.push(value);
            proof {
                if rec_before.generic.contains_key(k@) {
                    assert(vals_before == rec_before.generic[k@]);
                } else {
                    assert(vals_before =~= Seq::<Seq<char>>::empty());
                }
                assert(vals.deep_view() =~= vals_before.push(binding@[k@].value));
                assert(generic@.insert(k@, vals_before.push(binding@[k@].value)) =~= rec_before
                    .generic.insert(
                    k@,
                    (if rec_before.generic.contains_key(k@) {
                        rec_before.generic[k@]
                    } else {
                        Seq::<Seq<char>>::empty()
                    }).push(binding@[k@].value),
                ));
            }
            generic.insert(k, vals);
        },
        RowClass::Unclassified => {},
    }
    let rec1 = EntityRecord { label, capital, generic };
    proof {
        assert(rec1@ == apply_to_record(category@, binding@, rec_before));
    }
    doc.insert(ek, rec1);
    proof {
        assert(final(doc)@ =~= apply_binding(category@, old(doc)@, binding@));
    }
}

/// All rows of a sequence of result documents, in document order then
/// in-document row order.
pub open spec fn all_bindings(rss: Seq<SparqlResponse>) -> Seq<BindingView>
    decreases rss.len(),
{
    if rss.len() == 0 {
        Seq::empty()
    } else {
        all_bindings(rss.drop_last()) + rss.last()@.bindings
    }
}

pub open spec fn bindings_have_category(cat: Seq<char>, bs: Seq<BindingView>) -> bool {
    forall|i: int| 0 <= i < bs.len() ==> (#[trigger] bs[i]).contains_key(cat)
}

pub open spec fn responses_have_category(cat: Seq<char>, rss: Seq<SparqlResponse>) -> bool {
    forall|a: int, b: int|
        0 <= a < rss.len() && 0 <= b < rss[a]@.bindings.len() ==> (#[trigger] rss[a]@.bindings[b]).contains_key(cat)
}

/// The document aggregated from a sequence of result documents.
pub open spec fn aggregate_spec(cat: Seq<char>, rss: Seq<SparqlResponse>) -> DocumentView {
    apply_bindings(cat, Map::empty(), all_bindings(rss))
}

proof fn lemma_all_bindings_take_step(rss: Seq<SparqlResponse>, i: int)
    requires
        0 <= i < rss.len(),
    ensures
        all_bindings(rss.take(i + 1)) == all_bindings(rss.take(i)) + rss[i]@.bindings,
{
    assert(rss.take(i + 1).drop_last() =~= rss.take(i));
    assert(rss.take(i + 1).last() == rss[i]);
}

/// The two phrasings of the input constraint agree: every row of every result
/// set binds the category column exactly when every row of the flattened row
/// sequence does.
pub proof fn lemma_responses_have_category_flat(cat: Seq<char>, rss: Seq<SparqlResponse>)
    ensures
        responses_have_category(cat, rss) <==> bindings_have_category(cat, all_bindings(rss)),
    decreases rss.len(),
{
    if rss.len() > 0 {
        let prefix = rss.drop_last();
        lemma_responses_have_category_flat(cat, prefix);
        let flat = all_bindings(rss);
        let flat_prefix = all_bindings(prefix);
        let tail = rss.last()@.bindings;
        assert(flat == flat_prefix + tail);
        if responses_have_category(cat, rss) {
            assert(responses_have_category(cat, prefix)) by {
                assert forall|a: int, b: int|
                    0 <= a < prefix.len() && 0 <= b < prefix[a]@.bindings.len() implies (
                #[trigger] prefix[a]@.bindings[b]).contains_key(cat) by {
                    assert(prefix[a] == rss[a]);
                }
            }
            assert forall|i: int| 0 <= i < flat.len() implies (#[trigger] flat[i]).contains_key(
                cat,
            ) by {
                if i < flat_prefix.len() {
                    assert(flat[i] == flat_prefix[i]);
                } else {
                    assert(flat[i] == tail[i - flat_prefix.len()]);
                    assert(rss[rss.len() - 1]@.bindings[i - flat_prefix.len()].contains_key(cat));
                }
            }
        }
        if bindings_have_category(cat, flat) {
            assert(bindings_have_category(cat, flat_prefix)) by {
                assert forall|i: int| 0 <= i < flat_prefix.len() implies (
                #[trigger] flat_prefix[i]).contains_key(cat) by {
                    assert(flat[i] == flat_prefix[i]);
                }
            }
            assert forall|a: int, b: int|
                0 <= a < rss.len() && 0 <= b < rss[a]@.bindings.len() implies (
            #[trigger] rss[a]@.bindings[b]).contains_key(cat) by {
                if a < rss.len() - 1 {
                    assert(prefix[a] == rss[a]);
                } else {
                    assert(flat[flat_prefix.len() + b] == tail[b]);
                }
            }
        }
    }
}

/// Aggregate every row of `result_sets` into one document keyed by the value
/// of the `category` column. Succeeds exactly when every row binds that
/// column; otherwise reports the first row, in input order, that does not,
/// and returns no document.
pub fn aggregate(category: &str, result_sets: &Vec<SparqlResponse>) -> (r: Result<
    AggregatedDocument,
    MalformedBindingError,
>)
    ensures
        match r {
            Ok(doc) => responses_have_category(category@, result_sets@) && doc@ == aggregate_spec(
                category@,
                result_sets@,
            ),
            Err(e) => {
                &&& e.result_set < result_sets@.len()
                &&& e.row < result_sets@[e.result_set as int]@.bindings.len()
                &&& !result_sets@[e.result_set as int]@.bindings[e.row as int].contains_key(
                    category@,
                )
                &&& forall|b: int|
                    0 <= b < e.row ==> (#[trigger] result_sets@[e.result_set as int]@.bindings[b]).contains_key(
                        category@,
                    )
                &&& forall|a: int, b: int|
                    0 <= a < e.result_set && 0 <= b < result_sets@[a]@.bindings.len() ==> (
                    #[trigger] result_sets@[a]@.bindings[b]).contains_key(category@)
            },
        },
{
    let ghost cat = category@;
    let ghost rss = result_sets@;
    let mut doc: AggregatedDocument = StringMap::new();
    proof {
        assert(rss.take(0) =~= Seq::<SparqlResponse>::empty());
    }
    let n = result_sets.len();
    let mut i: usize = 0;
    while i < n
        invariant
            i <= n,
            n == rss.len(),
            rss == result_sets@,
            cat == category@,
            doc@ == apply_bindings(cat, Map::empty(), all_bindings(rss.take(i as int))),
            forall|a: int, b: int|
                0 <= a < i && 0 <= b < rss[a]@.bindings.len() ==> (
                #[trigger] rss[a]@.bindings[b]).contains_key(cat),
        decreases n - i,
    {
        let m = result_sets[i].results.bindings.len();
        proof {
            assert(rss[i as int]@.bindings.take(0) =~= Seq::<BindingView>::empty());
            assert(all_bindings(rss.take(i as int)) + Seq::<BindingView>::empty() =~= all_bindings(
                rss.take(i as int),
            ));
        }
        let mut j: usize = 0;
        while j < m
            invariant
                i < n,
                j <= m,
                n == rss.len(),
                rss == result_sets@,
                cat == category@,
                m == rss[i as int]@.bindings.len(),
                doc@ == apply_bindings(
                    cat,
                    Map::empty(),
                    all_bindings(rss.take(i as int)) + rss[i as int]@.bindings.take(j as int),
                ),
                forall|a: int, b: int|
                    0 <= a < i && 0 <= b < rss[a]@.bindings.len() ==> (
                    #[trigger] rss[a]@.bindings[b]).contains_key(cat),
                forall|b: int|
                    0 <= b < j ==> (#[trigger] rss[i as int]@.bindings[b]).contains_key(cat),
            decreases m - j,
        {
            let binding = &result_sets[i].results.bindings[j];
            proof {
                assert(binding@ == rss[i as int]@.bindings[j as int]);
            }
            if !binding.contains_key(category) {
                return Err(MalformedBindingError { result_set: i, row: j });
            }
            apply_row(&mut doc, category, binding);
            proof {
                let bs = all_bindings(rss.take(i as int)) + rss[i as int]@.bindings.take(j as int);
                assert(bs.push(binding@) =~= all_bindings(rss.take(i as int)) + rss[
                    i as int
                ]@.bindings.take(j as int + 1));
                assert(bs.push(binding@).drop_last() =~= bs);
                assert(doc@ == apply_bindings(cat, Map::empty(), bs.push(binding@)));
            }
            j += 1;
        }
        proof {
            assert(rss[i as int]@.bindings.take(m as int) =~= rss[i as int]@.bindings);
            lemma_all_bindings_take_step(rss, i as int);
        }
        i += 1;
    }
    proof {
        assert(rss.take(n as int) =~= rss);
    }
    Ok(doc)
}

/// The set of entity keys named by a sequence of rows in their category
/// column.
pub open spec fn category_values(cat: Seq<char>, bs: Seq<BindingView>) -> Set<Seq<char>> {
    Set::new(
        |k: Seq<char>|
            exists|i: int|
                0 <= i < bs.len() && (#[trigger] bs[i]).contains_key(cat) && bs[i][cat].value == k,
    )
}

proof fn lemma_apply_bindings_dom(cat: Seq<char>, doc: DocumentView, bs: Seq<BindingView>)
    requires
        bindings_have_category(cat, bs),
    ensures
        apply_bindings(cat, doc, bs).dom() =~= doc.dom() + category_values(cat, bs),
    decreases bs.len(),
{
    if bs.len() == 0 {
        assert(category_values(cat, bs) =~= Set::<Seq<char>>::empty());
    } else {
        let prefix = bs.drop_last();
        assert(bindings_have_category(cat, prefix)) by {
            assert forall|i: int| 0 <= i < prefix.len() implies (#[trigger] prefix[i]).contains_key(
                cat,
            ) by {
                assert(prefix[i] == bs[i]);
            }
        }
        lemma_apply_bindings_dom(cat, doc, prefix);
        assert(category_values(cat, bs) =~= category_values(cat, prefix).insert(
            bs.last()[cat].value,
        )) by {
            assert forall|k: Seq<char>|
                category_values(cat, bs).contains(k) <==> category_values(cat, prefix).insert(
                    bs.last()[cat].value,
                ).contains(k) by {
                if category_values(cat, bs).contains(k) {
                    let i = choose|i: int|
                        0 <= i < bs.len() && (#[trigger] bs[i]).contains_key(cat) && bs[i][cat].value
                            == k;
                    if i < bs.len() - 1 {
                        assert(prefix[i] == bs[i]);
                        assert(category_values(cat, prefix).contains(k));
                    }
                }
                if category_values(cat, prefix).contains(k) {
                    let i = choose|i: int|
                        0 <= i < prefix.len() && (#[trigger] prefix[i]).contains_key(cat)
                            && prefix[i][cat].value == k;
                    assert(bs[i] == prefix[i]);
                    assert(category_values(cat, bs).contains(k));
                }
                if k == bs.last()[cat].value {
                    assert(bs[bs.len() - 1].contains_key(cat) && bs[bs.len() - 1][cat].value == k);
                    assert(category_values(cat, bs).contains(k));
                }
            }
        }
        assert(apply_bindings(cat, doc, bs).dom() =~= doc.dom() + category_values(cat, bs));
    }
}

/// Law: the aggregated document has exactly one entry per distinct value of
/// the category column over all rows, and no other entries.
pub proof fn lemma_document_keys(cat: Seq<char>, bs: Seq<BindingView>)
    requires
        bindings_have_category(cat, bs),
    ensures
        apply_bindings(cat, Map::empty(), bs).dom() == category_values(cat, bs),
{
    lemma_apply_bindings_dom(cat, Map::empty(), bs);
    assert(Map::<Seq<char>, EntityRecordView>::empty().dom() + category_values(cat, bs)
        =~= category_values(cat, bs));
}

/// Law: the document aggregated from a sequence of result sets has exactly
/// one entry per distinct value of the category column over all their rows,
/// and no other entries.
pub proof fn lemma_aggregate_document_keys(cat: Seq<char>, rss: Seq<SparqlResponse>)
    requires
        responses_have_category(cat, rss),
    ensures
        aggregate_spec(cat, rss).dom() == category_values(cat, all_bindings(rss)),
{
    lemma_responses_have_category_flat(cat, rss);
    lemma_document_keys(cat, all_bindings(rss));
}

/// Law: a row that binds no column besides the category column, or several
/// (without matching the capital or label rules), only makes sure its
/// entity's record exists; it changes nothing else. On a document that
/// already holds the entity it is a no-op, and applying it twice is the same
/// as applying it once.
pub proof fn lemma_unclassified_row_is_inert(cat: Seq<char>, doc: DocumentView, b: BindingView)
    requires
        b.contains_key(cat),
        !b.contains_key("capital"@),
        !(b.contains_key("label"@) && b.contains_key("language"@)),
        leftover_columns(cat, b).len() != 1,
    ensures
        apply_binding(cat, doc, b) == doc.insert(b[cat].value, record_for(doc, b[cat].value)),
        doc.contains_key(b[cat].value) ==> apply_binding(cat, doc, b) == doc,
        apply_binding(cat, apply_binding(cat, doc, b), b) == apply_binding(cat, doc, b),
{
    if doc.contains_key(b[cat].value) {
        assert(apply_binding(cat, doc, b) =~= doc);
    }
    let once = apply_binding(cat, doc, b);
    assert(once.contains_key(b[cat].value));
    assert(apply_binding(cat, once, b) =~= once);
}

/// Law: aggregation is deterministic. Any two documents that meet the
/// aggregation contract for the same category and the same ordered result
/// sets are equal, so re-running the fold can never give a different answer.
pub proof fn lemma_aggregate_deterministic(
    cat: Seq<char>,
    rss: Seq<SparqlResponse>,
    d1: DocumentView,
    d2: DocumentView,
)
    requires
        d1 == aggregate_spec(cat, rss),
        d2 == aggregate_spec(cat, rss),
    ensures
        d1 == d2,
{
}

} // verus!
