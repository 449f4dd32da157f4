//! Structural parsing of one source line into a `LogMessage`. The JSON
//! document itself is read by `serde_json`, modeled here as a mathematical
//! JSON tree; the record schema — which fields are required, how the
//! direction labels map, how span objects are shaped — is decided and
//! verified here, pinned field by field to that tree.

use vstd::prelude::*;
use crate::log_message::{Fields, LogMessage, LogMessageView, Span, StanzaDirection};
use crate::text::str_eq;

verus! {

/// The mathematical value of a JSON document. A number's value is never
/// read by the record schema, so numbers carry no payload.
pub ghost enum JsonView {
    Null,
    Bool(bool),
    Num,
    Str(Seq<char>),
    Arr(Seq<JsonView>),
    Obj(Map<Seq<char>, JsonView>),
}

/// What parsing a text as a JSON document returns, or nothing when the text
/// is not one; a function of the text alone.
pub uninterp spec fn json_doc(s: Seq<char>) -> Option<JsonView>;

/// The JSON tree a parsed `serde_json::Value` holds.
pub uninterp spec fn json_model(v: serde_json::Value) -> JsonView;

#[verifier::external_type_specification]
#[verifier::external_body]
pub struct ExJsonValue(serde_json::Value);

/// Relies on `serde_json::from_str::<Value>`: parses one line of JSON text,
/// `None` when the text is not a JSON document. The parse depends on the
/// text alone.
#[verifier::external_body]
fn parse_json(s: &str) -> (r: Option<serde_json::Value>)
    ensures
        (r matches Some(v) ==> json_doc(s@) == Some(json_model(v))),
        (r is None ==> json_doc(s@) is None),
{
    serde_json::from_str(s).ok()
}

/// Relies on `serde_json::Value::get`: the value under a key of a JSON
/// object, `None` on other values or absent keys.
#[verifier::external_body]
fn json_get<'a>(v: &'a serde_json::Value, key: &str) -> (r: Option<&'a serde_json::Value>)
    ensures
        match json_model(*v) {
            JsonView::Obj(m) => (r matches Some(f) ==> m.contains_key(key@) && json_model(*f)
                == m[key@]) && (r is None ==> !m.contains_key(key@)),
            _ => r is None,
        },
{
    v.get(key)
}

/// Relies on `serde_json::Value::as_str`: the text of a JSON string value,
/// `None` on any other value.
#[verifier::external_body]
fn json_as_str<'a>(v: &'a serde_json::Value) -> (r: Option<&'a str>)
    ensures
        match json_model(*v) {
            JsonView::Str(t) => r matches Some(s) && s@ == t,
            _ => r is None,
        },
{
    v.as_str()
}

/// Relies on `serde_json::Value::as_array`: the elements of a JSON array
/// value, `None` on any other value.
#[verifier::external_body]
fn json_as_array<'a>(v: &'a serde_json::Value) -> (r: Option<&'a Vec<serde_json::Value>>)
    ensures
        match json_model(*v) {
            JsonView::Arr(els) => r matches Some(a) && a@.map_values(
                |e: serde_json::Value| json_model(e),
            ) == els,
            _ => r is None,
        },
{
    v.as_array()
}

/// Relies on `serde_json::Value::is_null`: whether the value is JSON null.
#[verifier::external_body]
fn json_is_null(v: &serde_json::Value) -> (r: bool)
    ensures
        r == (json_model(*v) is Null),
{
    v.is_null()
}

/// Whether a timestamp text is valid; a function of the text alone.
pub uninterp spec fn is_rfc3339(s: Seq<char>) -> bool;

/// Relies on chrono's `DateTime::parse_from_rfc3339`: whether `s` is a valid
/// RFC 3339 timestamp; a pure parse, a function of `s` alone.
#[verifier::external_body]
fn valid_timestamp(s: &str) -> (r: bool)
    ensures
        r == is_rfc3339(s@),
{
    chrono::DateTime::parse_from_rfc3339(s).is_ok()
}

/// How a direction label maps to a direction: exactly `IN` and `OUT` are
/// protocol directions; anything else is not a valid label.
pub open spec fn spec_direction_label(s: Seq<char>) -> Option<StanzaDirection> {
    if s == "IN"@ {
        Some(StanzaDirection::In)
    } else if s == "OUT"@ {
        Some(StanzaDirection::Out)
    } else {
        None
    }
}

/// Map a direction label to its direction.
pub fn direction_of_label(s: &str) -> (r: Option<StanzaDirection>)
    ensures
        r == spec_direction_label(s@),
{
    if str_eq(s, "IN") {
        Some(StanzaDirection::In)
    } else if str_eq(s, "OUT") {
        Some(StanzaDirection::Out)
    } else {
        None
    }
}

/// The text under a key of a JSON object, when that key holds a string.
pub open spec fn obj_str(m: Map<Seq<char>, JsonView>, key: Seq<char>) -> Option<Seq<char>> {
    if m.contains_key(key) {
        match m[key] {
            JsonView::Str(t) => Some(t),
            _ => None,
        }
    } else {
        None
    }
}

/// The direction of a `fields` object: absent or null means none, a valid
/// label means that direction, and anything else rejects the record
/// (the outer `None`).
pub open spec fn spec_direction_field(m: Map<Seq<char>, JsonView>) -> Option<
    Option<StanzaDirection>,
> {
    if !m.contains_key("direction"@) {
        Some(None)
    } else {
        match m["direction"@] {
            JsonView::Null => Some(None),
            JsonView::Str(l) => match spec_direction_label(l) {
                Some(d) => Some(Some(d)),
                None => None,
            },
            _ => None,
        }
    }
}

/// The name of one span object: an object carrying at least a `name` string.
pub open spec fn spec_span_of(v: JsonView) -> Option<Seq<char>> {
    match v {
        JsonView::Obj(m) => obj_str(m, "name"@),
        _ => None,
    }
}

/// The names of a list of span objects, or nothing when any element is not
/// a span object.
pub open spec fn spec_spans_of(els: Seq<JsonView>) -> Option<Seq<Seq<char>>>
    decreases els.len(),
{
    if els.len() == 0 {
        Some(Seq::empty())
    } else {
        match spec_span_of(els[0]) {
            None => None,
            Some(n) => match spec_spans_of(els.drop_first()) {
                None => None,
                Some(rest) => Some(seq![n] + rest),
            },
        }
    }
}

/// The optional `span` field of a record object: absent or null means none,
/// a valid span object means that span, anything else rejects the record.
pub open spec fn spec_span_field(m: Map<Seq<char>, JsonView>) -> Option<Option<Seq<char>>> {
    if !m.contains_key("span"@) {
        Some(None)
    } else {
        match m["span"@] {
            JsonView::Null => Some(None),
            v => match spec_span_of(v) {
                Some(n) => Some(Some(n)),
                None => None,
            },
        }
    }
}

/// The optional `spans` field of a record object: absent or null means
/// none, a valid list of span objects means those names, anything else
/// rejects the record.
pub open spec fn spec_spans_field(m: Map<Seq<char>, JsonView>) -> Option<Option<Seq<Seq<char>>>> {
    if !m.contains_key("spans"@) {
        Some(None)
    } else {
        match m["spans"@] {
            JsonView::Null => Some(None),
            JsonView::Arr(els) => match spec_spans_of(els) {
                Some(ns) => Some(Some(ns)),
                None => None,
            },
            _ => None,
        }
    }
}

/// The record a JSON document yields: an object with string `timestamp`
/// (a valid RFC 3339 instant), `level` and `target`, a `fields` object with
/// the raw `message` text and the optional `direction` label, and optional
/// `span` / `spans` span objects; anything else is no record.
pub open spec fn spec_record_of(doc: JsonView) -> Option<LogMessageView> {
    match doc {
        JsonView::Obj(m) => match obj_str(m, "timestamp"@) {
            None => None,
            Some(ts) => if !is_rfc3339(ts) {
                None
            } else {
                match obj_str(m, "level"@) {
                    None => None,
                    Some(level) => match obj_str(m, "target"@) {
                        None => None,
                        Some(target) => if !m.contains_key("fields"@) {
                            None
                        } else {
                            match m["fields"@] {
                                JsonView::Obj(fm) => match obj_str(fm, "message"@) {
                                    None => None,
                                    Some(message) => match spec_direction_field(fm) {
                                        None => None,
                                        Some(direction) => match spec_span_field(m) {
                                            None => None,
                                            Some(span) => match spec_spans_field(m) {
                                                None => None,
                                                Some(spans) => Some(
                                                    LogMessageView {
                                                        timestamp: ts,
                                                        level,
                                                        message,
                                                        direction,
                                                        target,
                                                        span,
                                                        spans,
                                                    },
                                                ),
                                            },
                                        },
                                    },
                                },
                                _ => None,
                            }
                        },
                    },
                }
            },
        },
        _ => None,
    }
}

/// The record a line of the source yields, or nothing when the line is not
/// a JSON document or not a record.
pub open spec fn spec_parse_record(s: Seq<char>) -> Option<LogMessageView> {
    match json_doc(s) {
        None => None,
        Some(doc) => spec_record_of(doc),
    }
}

/// A required string field of a JSON object.
fn get_string_field(v: &serde_json::Value, key: &str) -> (r: Option<String>)
    ensures
        match json_model(*v) {
            JsonView::Obj(m) => match obj_str(m, key@) {
                Some(t) => r matches Some(s) && s@ == t,
                None => r is None,
            },
            _ => r is None,
        },
{
    match json_get(v, key) {
        Some(f) => match json_as_str(f) {
            Some(s) => Some(s.to_owned()),
            None => None,
        },
        None => None,
    }
}

/// One span object: a JSON object carrying at least a `name` string.
fn parse_span(v: &serde_json::Value) -> (r: Option<Span>)
    ensures
        match spec_span_of(json_model(*v)) {
            Some(n) => r matches Some(sp) && sp@ == n,
            None => r is None,
        },
{
    match get_string_field(v, "name") {
        Some(name) => Some(Span { name }),
        None => None,
    }
}

proof fn lemma_spans_prefix(els: Seq<JsonView>, got: Seq<Seq<char>>, i: int)
    requires
        0 <= i <= els.len(),
        got.len() == i,
        forall|k: int| 0 <= k < i ==> spec_span_of(#[trigger] els[k]) == Some(got[k]),
    ensures
        spec_spans_of(els) == (match spec_spans_of(els.skip(i)) {
            None => None,
            Some(rest) => Some(got + rest),
        }),
    decreases i,
{
    if i == 0 {
        assert(els.skip(0) =~= els);
        match spec_spans_of(els) {
            None => {},
            Some(rest) => {
                assert(got + rest =~= rest);
            },
        }
    } else {
        lemma_spans_prefix(els, got.take(i - 1), i - 1);
        let tail = els.skip(i - 1);
        assert(tail[0] == els[i - 1]);
        assert(tail.drop_first() =~= els.skip(i));
        assert(spec_span_of(tail[0]) == Some(got[i - 1]));
        match spec_spans_of(els.skip(i)) {
            None => {
                assert(spec_spans_of(tail) is None);
            },
            Some(rest) => {
                assert(spec_spans_of(tail) == Some(seq![got[i - 1]] + rest));
                assert(got.take(i - 1) + (seq![got[i - 1]] + rest) =~= got + rest);
            },
        }
    }
}

/// A list of span objects; fails when any element is not a span object.
fn parse_span_list(v: &serde_json::Value) -> (r: Option<Vec<Span>>)
    ensures
        match json_model(*v) {
            JsonView::Arr(els) => match spec_spans_of(els) {
                Some(ns) => r matches Some(ss) && ss@.map_values(|sp: Span| sp@) == ns,
                None => r is None,
            },
            _ => r is None,
        },
{
    let arr = match json_as_array(v) {
        Some(a) => a,
        None => {
            return None;
        },
    };
    let ghost els = arr@.map_values(|e: serde_json::Value| json_model(e));
    let mut spans: Vec<Span> = Vec::new();
    let mut i: usize = 0;
    while i < arr.len()
        invariant
            i <= arr@.len(),
            els == arr@.map_values(|e: serde_json::Value| json_model(e)),
            json_model(*v) == JsonView::Arr(els),
            spans@.map_values(|sp: Span| sp@).len() == i,
            forall|k: int|
                0 <= k < i ==> spec_span_of(#[trigger] els[k]) == Some(
                    spans@.map_values(|sp: Span| sp@)[k],
                ),
        decreases arr@.len() - i,
    {
        match parse_span(&arr[i]) {
            Some(s) => spans.push(s),
            None => {
                proof {
                    lemma_spans_prefix(els, spans@.map_values(|sp: Span| sp@), i as int);
                    assert(els.skip(i as int)[0] == els[i as int]);
                    assert(spec_spans_of(els.skip(i as int)) is None);
                }
                return None;
            },
        }
        i = i + 1;
        proof {
            assert(spans@.map_values(|sp: Span| sp@) =~= spans@.drop_last().map_values(
                |sp: Span| sp@,
            ).push(spans@.last()@));
        }
    }
    proof {
        lemma_spans_prefix(els, spans@.map_values(|sp: Span| sp@), i as int);
        assert(els.skip(i as int) =~= Seq::<JsonView>::empty());
        assert(spec_spans_of(els.skip(i as int)) == Some(Seq::<Seq<char>>::empty()));
        assert(spans@.map_values(|sp: Span| sp@) + Seq::<Seq<char>>::empty() =~= spans@.map_values(
            |sp: Span| sp@,
        ));
    }
    Some(spans)
}

/// An optional field: absent and null both mean "not there"; present values
/// must parse or the record is rejected.
enum OptField<T> {
    Missing,
    Present(T),
    Invalid,
}

/// The optional direction marker of the `fields` object.
fn parse_direction(fields: &serde_json::Value) -> (r: OptField<StanzaDirection>)
    ensures
        json_model(*fields) matches JsonView::Obj(m) ==> match spec_direction_field(m) {
            None => r is Invalid,
            Some(None) => r is Missing,
            Some(Some(d)) => r matches OptField::Present(pd) && pd == d,
        },
{
    let dv = match json_get(fields, "direction") {
        Some(d) => d,
        None => {
            return OptField::Missing;
        },
    };
    if json_is_null(dv) {
        return OptField::Missing;
    }
    let label = match json_as_str(dv) {
        Some(l) => l,
        None => {
            return OptField::Invalid;
        },
    };
    match direction_of_label(label) {
        Some(d) => OptField::Present(d),
        None => OptField::Invalid,
    }
}

/// Parse one line of the source into a record: exactly the lines whose JSON
/// document fits the record schema yield one, and its fields are the
/// document's.
pub fn parse_log_message(line: &str) -> (r: Option<LogMessage>)
    ensures
        match spec_parse_record(line@) {
            Some(mv) => r matches Some(m) && m@ == mv,
            None => r is None,
        },
{
    let v = match parse_json(line) {
        Some(v) => v,
        None => {
            return None;
        },
    };
    let timestamp = match get_string_field(&v, "timestamp") {
        Some(t) => t,
        None => {
            return None;
        },
    };
    if !valid_timestamp(timestamp.as_str()) {
        return None;
    }
    let level = match get_string_field(&v, "level") {
        Some(l) => l,
        None => {
            return None;
        },
    };
    let target = match get_string_field(&v, "target") {
        Some(t) => t,
        None => {
            return None;
        },
    };
    let fields_v = match json_get(&v, "fields") {
        Some(f) => f,
        None => {
            return None;
        },
    };
    let message = match get_string_field(fields_v, "message") {
        Some(m) => m,
        None => {
            return None;
        },
    };
    let direction: Option<StanzaDirection> = match parse_direction(fields_v) {
        OptField::Missing => None,
        OptField::Present(d) => Some(d),
        OptField::Invalid => {
            return None;
        },
    };
    let span: Option<Span> = match json_get(&v, "span") {
        None => None,
        Some(sv) => {
            if json_is_null(sv) {
                None
            } else {
                match parse_span(sv) {
                    Some(s) => Some(s),
                    None => {
                        return None;
                    },
                }
            }
        },
    };
    let spans: Option<Vec<Span>> = match json_get(&v, "spans") {
        None => None,
        Some(sv) => {
            if json_is_null(sv) {
                None
            } else {
                match parse_span_list(sv) {
                    Some(ss) => Some(ss),
                    None => {
                        return None;
                    },
                }
            }
        },
    };
    Some(
        LogMessage {
            timestamp,
            level,
            fields: Fields { message, direction },
            target,
            span,
            spans,
        },
    )
}

} // verus!
