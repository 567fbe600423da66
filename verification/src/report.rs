//! Redaction of a JSON diagnostic report: every node is visited, fields whose
//! names mark identity, address, path or secret data lose their contents, and
//! all other strings are scrubbed as free text. The shape of the document is
//! kept: the same keys, the same array lengths.

use vstd::prelude::*;
use crate::text::str_chars;
use crate::sanitizer::{sanitize_string, sanitize_text, is_sensitive_key, sensitive_key};

verus! {

#[verifier::external_type_specification]
#[verifier::external_body]
pub struct ExJsonNumber(serde_json::Number);

#[verifier::external_type_specification]
#[verifier::external_body]
pub struct ExJsonValue(serde_json::Value);

/// `Number::clone`: `Number` derives `Clone` over plain integer and float
/// fields, so the copy equals the original.
pub assume_specification[ <serde_json::Number as Clone>::clone ](n: &serde_json::Number) -> (r: serde_json::Number)
    ensures
        r == *n,
;

/// A JSON document. Object members are listed in the order `serde_json`'s map
/// holds them, which is sorted by key (a `BTreeMap` here); the list itself
/// keeps whatever order it was built in.
#[derive(Debug)]
pub enum JsonValue {
    Null,
    Bool(bool),
    Number(serde_json::Number),
    Str(String),
    Array(Vec<JsonValue>),
    Object(Vec<(String, JsonValue)>),
}

/// Mathematical model of a JSON document.
pub enum JsonView {
    Null,
    Bool(bool),
    Number(serde_json::Number),
    Str(Seq<char>),
    Array(Seq<JsonView>),
    Object(Seq<(Seq<char>, JsonView)>),
}

/// The model of a document.
pub open spec fn jv(v: JsonValue) -> JsonView
    decreases v,
{
    match v {
        JsonValue::Null => JsonView::Null,
        JsonValue::Bool(b) => JsonView::Bool(b),
        JsonValue::Number(n) => JsonView::Number(n),
        JsonValue::Str(s) => JsonView::Str(s@),
        JsonValue::Array(items) => JsonView::Array(jv_items(items@)),
        JsonValue::Object(es) => JsonView::Object(jv_entries(es@)),
    }
}

/// The models of the items of an array.
pub open spec fn jv_items(items: Seq<JsonValue>) -> Seq<JsonView>
    decreases items,
{
    if items.len() == 0 {
        Seq::empty()
    } else {
        jv_items(items.drop_last()).push(jv(items[items.len() - 1]))
    }
}

/// The models of the members of an object.
pub open spec fn jv_entries(es: Seq<(String, JsonValue)>) -> Seq<(Seq<char>, JsonView)>
    decreases es,
{
    if es.len() == 0 {
        Seq::empty()
    } else {
        jv_entries(es.drop_last()).push((es[es.len() - 1].0@, jv(es[es.len() - 1].1)))
    }
}

pub proof fn lemma_jv_items(items: Seq<JsonValue>)
    ensures
        jv_items(items).len() == items.len(),
        forall|i: int| 0 <= i < items.len() ==> #[trigger] jv_items(items)[i] == jv(items[i]),
    decreases items.len(),
{
    if items.len() > 0 {
        lemma_jv_items(items.drop_last());
    }
}

pub proof fn lemma_jv_entries(es: Seq<(String, JsonValue)>)
    ensures
        jv_entries(es).len() == es.len(),
        forall|i: int|
            0 <= i < es.len() ==> #[trigger] jv_entries(es)[i] == (es[i].0@, jv(es[i].1)),
    decreases es.len(),
{
    if es.len() > 0 {
        lemma_jv_entries(es.drop_last());
    }
}

} // verus!

verus! {

// ---------------------------------------------------------------------------
// Metric objects and the redaction rule
// ---------------------------------------------------------------------------

/// The five fields of a serialised metric value.
pub open spec fn metric_field(k: Seq<char>) -> bool {
    k == "value"@ || k == "unit"@ || k == "quality"@ || k == "source"@ || k == "timestamp"@
}

/// Some member of `es` is named `k`.
pub open spec fn has_member(es: Seq<(Seq<char>, JsonView)>, k: Seq<char>) -> bool {
    exists|i: int| 0 <= i < es.len() && (#[trigger] es[i]).0 == k
}

/// An object that is exactly a metric value: the five metric fields, an
/// optional `error`, and nothing else.
pub open spec fn complete_metric(es: Seq<(Seq<char>, JsonView)>) -> bool {
    &&& es.len() == 5 || es.len() == 6
    &&& has_member(es, "value"@)
    &&& has_member(es, "unit"@)
    &&& has_member(es, "quality"@)
    &&& has_member(es, "source"@)
    &&& has_member(es, "timestamp"@)
    &&& forall|i: int| 0 <= i < es.len() ==> metric_field((#[trigger] es[i]).0) || es[i].0 == "error"@
}

/// The redacted model of a node; `sensitive` says that the node belongs to a
/// sensitive field. Strings of sensitive fields become `<REDACTED>`, their
/// other scalars `null`; in a sensitive metric object only `value` is
/// nulled and the metadata is kept; every other string is scrubbed as free
/// text.
pub open spec fn sanitize_view(v: JsonView, sensitive: bool) -> JsonView
    decreases v,
{
    match v {
        JsonView::Object(es) => JsonView::Object(
            sanitize_entries(es, sensitive && complete_metric(es), sensitive),
        ),
        JsonView::Array(items) => JsonView::Array(sanitize_items(items, sensitive)),
        JsonView::Str(s) => if sensitive {
            JsonView::Str("<REDACTED>"@)
        } else {
            JsonView::Str(sanitize_text(s))
        },
        _ => if sensitive {
            JsonView::Null
        } else {
            v
        },
    }
}

/// Redacted array items.
pub open spec fn sanitize_items(items: Seq<JsonView>, sensitive: bool) -> Seq<JsonView>
    decreases items,
{
    if items.len() == 0 {
        Seq::empty()
    } else {
        sanitize_items(items.drop_last(), sensitive).push(
            sanitize_view(items[items.len() - 1], sensitive),
        )
    }
}

/// Redacted object members; `metric` says the object is a sensitive metric.
pub open spec fn sanitize_entries(
    es: Seq<(Seq<char>, JsonView)>,
    metric: bool,
    sensitive: bool,
) -> Seq<(Seq<char>, JsonView)>
    decreases es,
{
    if es.len() == 0 {
        Seq::empty()
    } else {
        let k = es[es.len() - 1].0;
        let c = es[es.len() - 1].1;
        let child = if metric && k == "value"@ {
            JsonView::Null
        } else if metric {
            sanitize_view(c, false)
        } else {
            sanitize_view(c, sensitive || sensitive_key(k))
        };
        sanitize_entries(es.drop_last(), metric, sensitive).push((k, child))
    }
}

fn has_member_named(es: &Vec<(String, JsonValue)>, name: &str) -> (b: bool)
    ensures
        b == has_member(jv_entries(es@), name@),
{
    proof {
        lemma_jv_entries(es@);
    }
    let target = name.to_owned();
    let n = es.len();
    let mut i: usize = 0;
    while i < n
        invariant
            i <= n == es@.len(),
            target@ == name@,
            jv_entries(es@).len() == es@.len(),
            forall|j: int| 0 <= j < es@.len() ==> #[trigger] jv_entries(es@)[j] == (es@[j].0@, jv(es@[j].1)),
            forall|j: int| 0 <= j < i ==> (#[trigger] jv_entries(es@)[j]).0 != name@,
        decreases n - i,
    {
        if es[i].0 == target {
            assert(jv_entries(es@)[i as int].0 == name@);
            return true;
        }
        i += 1;
    }
    false
}

/// Whether an object is exactly a metric value (see [`complete_metric`]).
pub fn is_complete_metric_value(es: &Vec<(String, JsonValue)>) -> (b: bool)
    ensures
        b == complete_metric(jv_entries(es@)),
{
    proof {
        lemma_jv_entries(es@);
    }
    let n = es.len();
    if n != 5 && n != 6 {
        return false;
    }
    if !has_member_named(es, "value") || !has_member_named(es, "unit")
        || !has_member_named(es, "quality") || !has_member_named(es, "source")
        || !has_member_named(es, "timestamp") {
        return false;
    }
    let value = "value".to_owned();
    let unit = "unit".to_owned();
    let quality = "quality".to_owned();
    let source = "source".to_owned();
    let timestamp = "timestamp".to_owned();
    let error = "error".to_owned();
    let mut i: usize = 0;
    while i < n
        invariant
            i <= n == es@.len(),
            value@ == "value"@,
            unit@ == "unit"@,
            quality@ == "quality"@,
            source@ == "source"@,
            timestamp@ == "timestamp"@,
            error@ == "error"@,
            jv_entries(es@).len() == es@.len(),
            forall|j: int| 0 <= j < es@.len() ==> #[trigger] jv_entries(es@)[j] == (es@[j].0@, jv(es@[j].1)),
            forall|j: int|
                0 <= j < i ==> metric_field((#[trigger] jv_entries(es@)[j]).0)
                    || jv_entries(es@)[j].0 == "error"@,
        decreases n - i,
    {
        let k = &es[i].0;
        let ok = *k == value || *k == unit || *k == quality || *k == source || *k == timestamp
            || *k == error;
        if !ok {
            assert(!(metric_field(jv_entries(es@)[i as int].0) || jv_entries(es@)[i as int].0 == "error"@));
            return false;
        }
        i += 1;
    }
    true
}

} // verus!

verus! {

/// Redacts one node of a report (see [`sanitize_view`]); `sensitive` says
/// that the node belongs to a sensitive field.
pub fn sanitize_value(v: &JsonValue, sensitive: bool) -> (out: JsonValue)
    ensures
        jv(out) == sanitize_view(jv(*v), sensitive),
    decreases v,
{
    match v {
        JsonValue::Object(es) => {
            proof {
                lemma_jv_entries(es@);
            }
            let metric = sensitive && is_complete_metric_value(es);
            let ghost src = jv_entries(es@);
            let value_key = "value".to_owned();
            let n = es.len();
            let mut out: Vec<(String, JsonValue)> = Vec::new();
            let mut i: usize = 0;
            while i < n
                invariant
                    i <= n == es@.len(),
                    *v == JsonValue::Object(*es),
                    src == jv_entries(es@),
                    src.len() == es@.len(),
                    forall|j: int| 0 <= j < es@.len() ==> #[trigger] src[j] == (es@[j].0@, jv(es@[j].1)),
                    metric == (sensitive && complete_metric(src)),
                    value_key@ == "value"@,
                    jv_entries(out@) == sanitize_entries(src.take(i as int), metric, sensitive),
                decreases n - i,
            {
                let key = &es[i].0;
                let child = &es[i].1;
                proof {
                    assert(*es == v->Object_0);
                    assert(decreases_to!(*v => v->Object_0));
                    assert(decreases_to!(*es => es@));
                    assert(decreases_to!(es@ => es@[i as int]));
                    assert(decreases_to!(es@[i as int] => es@[i as int].1));
                }
                let new_child = if metric && *key == value_key {
                    JsonValue::Null
                } else if metric {
                    sanitize_value(child, false)
                } else {
                    let s = sensitive || is_sensitive_key(key.as_str());
                    sanitize_value(child, s)
                };
                let ghost before = out@;
                let ghost new_view = jv(new_child);
                let key_copy = key.clone();
                out.push((key_copy, new_child));
                proof {
                    assert(out@.drop_last() =~= before);
                    assert(jv_entries(out@) == jv_entries(before).push((key@, new_view)));
                    assert(src[i as int].0 == key@);
                    assert(src[i as int].1 == jv(*child));
                    assert(src.take(i + 1).drop_last() =~= src.take(i as int));
                    assert(src.take(i + 1)[i as int] == src[i as int]);
                }
                i += 1;
            }
            assert(src.take(n as int) =~= src);
            JsonValue::Object(out)
        },
        JsonValue::Array(items) => {
            proof {
                lemma_jv_items(items@);
            }
            let ghost src = jv_items(items@);
            let n = items.len();
            let mut out: Vec<JsonValue> = Vec::new();
            let mut i: usize = 0;
            while i < n
                invariant
                    i <= n == items@.len(),
                    *v == JsonValue::Array(*items),
                    src == jv_items(items@),
                    src.len() == items@.len(),
                    forall|j: int| 0 <= j < items@.len() ==> #[trigger] src[j] == jv(items@[j]),
                    jv_items(out@) == sanitize_items(src.take(i as int), sensitive),
                decreases n - i,
            {
                proof {
                    assert(*items == v->Array_0);
                    assert(decreases_to!(*v => v->Array_0));
                    assert(decreases_to!(*items => items@));
                    assert(decreases_to!(items@ => items@[i as int]));
                }
                let new_item = sanitize_value(&items[i], sensitive);
                let ghost before = out@;
                out.push(new_item);
                proof {
                    assert(out@.drop_last() =~= before);
                    assert(src.take(i + 1).drop_last() =~= src.take(i as int));
                    assert(src.take(i + 1)[i as int] == src[i as int]);
                }
                i += 1;
            }
            assert(src.take(n as int) =~= src);
            JsonValue::Array(out)
        },
        JsonValue::Str(s) => {
            if sensitive {
                let r = "<REDACTED>".to_owned();
                JsonValue::Str(r)
            } else {
                JsonValue::Str(sanitize_string(s.as_str()))
            }
        },
        JsonValue::Null => JsonValue::Null,
        JsonValue::Bool(b) => {
            if sensitive {
                JsonValue::Null
            } else {
                JsonValue::Bool(*b)
            }
        },
        JsonValue::Number(num) => {
            if sensitive {
                JsonValue::Null
            } else {
                JsonValue::Number(num.clone())
            }
        },
    }
}

} // verus!

verus! {

// ---------------------------------------------------------------------------
// Reading and writing JSON text
// ---------------------------------------------------------------------------

/// The document `serde_json` reads from `text`, or `None` where it rejects it.
pub uninterp spec fn json_parse(text: Seq<char>) -> Option<JsonView>;

/// The compact text `serde_json` writes for a document, or `None` where it fails.
pub uninterp spec fn json_render(v: JsonView) -> Option<Seq<char>>;

/// The model of an optional document.
pub open spec fn opt_jv(o: Option<JsonValue>) -> Option<JsonView> {
    match o {
        Some(v) => Some(jv(v)),
        None => None,
    }
}

/// Converts a `serde_json` value node by node (object members in the map's
/// own order, sorted by key).
#[verifier::external_body]
fn from_serde(v: serde_json::Value) -> JsonValue {
    match v {
        serde_json::Value::Null => JsonValue::Null,
        serde_json::Value::Bool(b) => JsonValue::Bool(b),
        serde_json::Value::Number(n) => JsonValue::Number(n),
        serde_json::Value::String(s) => JsonValue::Str(s),
        serde_json::Value::Array(a) => JsonValue::Array(a.into_iter().map(from_serde).collect()),
        serde_json::Value::Object(m) => JsonValue::Object(
            m.into_iter().map(|(k, c)| (k, from_serde(c))).collect(),
        ),
    }
}

/// Converts a document back into a `serde_json` value node by node.
#[verifier::external_body]
fn to_serde(v: &JsonValue) -> serde_json::Value {
    match v {
        JsonValue::Null => serde_json::Value::Null,
        JsonValue::Bool(b) => serde_json::Value::Bool(*b),
        JsonValue::Number(n) => serde_json::Value::Number(n.clone()),
        JsonValue::Str(s) => serde_json::Value::String(s.clone()),
        JsonValue::Array(a) => serde_json::Value::Array(a.iter().map(to_serde).collect()),
        JsonValue::Object(es) => serde_json::Value::Object(
            es.iter().map(|(k, c)| (k.clone(), to_serde(c))).collect(),
        ),
    }
}

/// `serde_json::from_str::<Value>`: the parsed document, named by
/// [`json_parse`]; nothing is claimed about which texts are accepted.
#[verifier::external_body]
pub(crate) fn parse_json(text: &str) -> (r: Option<JsonValue>)
    ensures
        opt_jv(r) == json_parse(text@),
{
    match serde_json::from_str::<serde_json::Value>(text) {
        Ok(v) => Some(from_serde(v)),
        Err(_) => None,
    }
}

/// `serde_json::to_string` on the document, named by [`json_render`].
#[verifier::external_body]
fn render_json(v: &JsonValue) -> (r: Option<String>)
    ensures
        match r {
            Some(t) => json_render(jv(*v)) == Some(t@),
            None => json_render(jv(*v)) is None,
        },
{
    serde_json::to_string(&to_serde(v)).ok()
}

/// What is answered for text that is no JSON document: a fixed object that
/// carries nothing of the input.
pub open spec fn invalid_json_output() -> Seq<char> {
    "{\"error\":\"invalid_json\"}"@
}

/// The redacted report for `raw`: the whole document redacted from its root,
/// written back as JSON; the fixed error object where reading or writing fails.
pub open spec fn report_output(raw: Seq<char>) -> Seq<char> {
    match json_parse(raw) {
        None => invalid_json_output(),
        Some(v) => match json_render(sanitize_view(v, false)) {
            Some(t) => t,
            None => invalid_json_output(),
        },
    }
}

/// Redacts a JSON report; input that is no JSON is never echoed back.
pub fn sanitize_report_json(raw_json: &str) -> (out: String)
    ensures
        out@ == report_output(raw_json@),
{
    let invalid = "{\"error\":\"invalid_json\"}".to_owned();
    match parse_json(raw_json) {
        None => invalid,
        Some(v) => {
            let clean = sanitize_value(&v, false);
            match render_json(&clean) {
                Some(t) => t,
                None => invalid,
            }
        },
    }
}

} // verus!

verus! {

// ---------------------------------------------------------------------------
// What redaction guarantees
// ---------------------------------------------------------------------------

/// Nothing of a sensitive field survives: strings read `<REDACTED>`, other
/// scalars are `null`, a metric value keeps only its metadata, and every part
/// of any other object or array is scrubbed in turn.
pub open spec fn scrubbed(v: JsonView) -> bool
    decreases v,
{
    match v {
        JsonView::Null => true,
        JsonView::Bool(_) => false,
        JsonView::Number(_) => false,
        JsonView::Str(s) => s == "<REDACTED>"@,
        JsonView::Array(items) => scrubbed_items(items),
        JsonView::Object(es) => if complete_metric(es) {
            forall|i: int| 0 <= i < es.len() && (#[trigger] es[i]).0 == "value"@ ==> es[i].1 is Null
        } else {
            scrubbed_entries(es)
        },
    }
}

/// Every item is scrubbed.
pub open spec fn scrubbed_items(items: Seq<JsonView>) -> bool
    decreases items,
{
    items.len() == 0 || (scrubbed_items(items.drop_last()) && scrubbed(items[items.len() - 1]))
}

/// Every member is scrubbed.
pub open spec fn scrubbed_entries(es: Seq<(Seq<char>, JsonView)>) -> bool
    decreases es,
{
    es.len() == 0 || (scrubbed_entries(es.drop_last()) && scrubbed(es[es.len() - 1].1))
}

/// Redacting members keeps their number and their names, in order.
pub proof fn lemma_entries_keep_names(es: Seq<(Seq<char>, JsonView)>, metric: bool, sensitive: bool)
    ensures
        sanitize_entries(es, metric, sensitive).len() == es.len(),
        forall|i: int|
            0 <= i < es.len() ==> (#[trigger] sanitize_entries(es, metric, sensitive)[i]).0 == es[i].0,
        forall|i: int|
            0 <= i < es.len() && metric && es[i].0 == "value"@
                ==> (#[trigger] sanitize_entries(es, metric, sensitive)[i]).1 is Null,
    decreases es.len(),
{
    if es.len() > 0 {
        lemma_entries_keep_names(es.drop_last(), metric, sensitive);
    }
}

/// Redacting an array keeps its length.
pub proof fn lemma_items_keep_length(items: Seq<JsonView>, sensitive: bool)
    ensures
        sanitize_items(items, sensitive).len() == items.len(),
    decreases items.len(),
{
    if items.len() > 0 {
        lemma_items_keep_length(items.drop_last(), sensitive);
    }
}

/// A metric object stays a metric object once redacted, and any other object
/// stays any other object.
pub proof fn lemma_metric_shape_kept(es: Seq<(Seq<char>, JsonView)>, metric: bool, sensitive: bool)
    ensures
        complete_metric(sanitize_entries(es, metric, sensitive)) == complete_metric(es),
{
    lemma_entries_keep_names(es, metric, sensitive);
    let out = sanitize_entries(es, metric, sensitive);
    assert forall|k: Seq<char>| has_member(out, k) == has_member(es, k) by {
        if has_member(es, k) {
            let i = choose|i: int| 0 <= i < es.len() && (#[trigger] es[i]).0 == k;
            assert(out[i].0 == k);
        }
        if has_member(out, k) {
            let i = choose|i: int| 0 <= i < out.len() && (#[trigger] out[i]).0 == k;
            assert(es[i].0 == k);
        }
    }
    if complete_metric(es) {
        assert forall|i: int| 0 <= i < out.len() implies metric_field((#[trigger] out[i]).0)
            || out[i].0 == "error"@ by {
            assert(es[i].0 == out[i].0);
        }
    }
    if complete_metric(out) {
        assert forall|i: int| 0 <= i < es.len() implies metric_field((#[trigger] es[i]).0)
            || es[i].0 == "error"@ by {
            assert(es[i].0 == out[i].0);
        }
    }
}

/// Law: whatever a sensitive field holds, its redacted form is scrubbed.
pub proof fn lemma_sensitive_fields_scrubbed(v: JsonView)
    ensures
        scrubbed(sanitize_view(v, true)),
    decreases v,
{
    match v {
        JsonView::Object(es) => {
            let m = complete_metric(es);
            lemma_metric_shape_kept(es, m, true);
            lemma_entries_keep_names(es, m, true);
            if !m {
                lemma_entries_scrubbed(es);
            }
        },
        JsonView::Array(items) => {
            lemma_items_scrubbed(items);
        },
        _ => {},
    }
}

/// Every item of a sensitive array is scrubbed.
pub proof fn lemma_items_scrubbed(items: Seq<JsonView>)
    ensures
        scrubbed_items(sanitize_items(items, true)),
    decreases items,
{
    if items.len() > 0 {
        lemma_items_scrubbed(items.drop_last());
        lemma_sensitive_fields_scrubbed(items[items.len() - 1]);
        let out = sanitize_items(items, true);
        assert(out.drop_last() =~= sanitize_items(items.drop_last(), true));
    }
}

/// Every member of a sensitive object that is no metric value is scrubbed.
pub proof fn lemma_entries_scrubbed(es: Seq<(Seq<char>, JsonView)>)
    ensures
        scrubbed_entries(sanitize_entries(es, false, true)),
    decreases es,
{
    if es.len() > 0 {
        lemma_entries_scrubbed(es.drop_last());
        lemma_sensitive_fields_scrubbed(es[es.len() - 1].1);
        let out = sanitize_entries(es, false, true);
        assert(out.drop_last() =~= sanitize_entries(es.drop_last(), false, true));
    }
}

} // verus!
