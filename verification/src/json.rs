//! The JSON documents this library reads, as `serde_json` holds them.
//!
//! A `serde_json::Value` is opaque to the verifier. [`JsonDoc`] is the
//! mathematical document it stands for, and [`json_doc`] names the document
//! of a value. The functions below are the only places where `serde_json` is
//! called; what they state of it is taken on trust.

use vstd::prelude::*;

verus! {

#[verifier::external_type_specification]
#[verifier::external_body]
pub struct ExValue(serde_json::Value);

/// A JSON document, as far as this library looks into one.
pub ghost enum JsonDoc {
    /// `null`, `true`, `false` or a number.
    Scalar,
    /// A string.
    Str(Seq<char>),
    /// An array, in order.
    Array(Seq<JsonDoc>),
    /// An object: its keys and what stands under each.
    Object(Map<Seq<char>, JsonDoc>),
}

/// The document that a `serde_json::Value` holds.
pub uninterp spec fn json_doc(v: serde_json::Value) -> JsonDoc;

/// The document that `text` parses to with `serde_json::from_str`; `None`
/// where `serde_json` rejects the text.
pub uninterp spec fn json_parse(text: Seq<char>) -> Option<JsonDoc>;

/// The document of an optional value.
pub open spec fn opt_json_doc(v: Option<serde_json::Value>) -> Option<JsonDoc> {
    match v {
        Some(v) => Some(json_doc(v)),
        None => None,
    }
}

/// The document of an optional borrowed value.
pub open spec fn opt_ref_json_doc(v: Option<&serde_json::Value>) -> Option<JsonDoc> {
    match v {
        Some(v) => Some(json_doc(*v)),
        None => None,
    }
}

/// What stands under `key`, if `doc` is an object that has the key.
pub open spec fn field(doc: JsonDoc, key: Seq<char>) -> Option<JsonDoc> {
    match doc {
        JsonDoc::Object(fields) => if fields.contains_key(key) {
            Some(fields[key])
        } else {
            None
        },
        _ => None,
    }
}

/// The text of `doc`, if it is a string.
pub open spec fn as_text(doc: JsonDoc) -> Option<Seq<char>> {
    match doc {
        JsonDoc::Str(s) => Some(s),
        _ => None,
    }
}

/// The text under `key`, if `doc` is an object that holds a string there.
pub open spec fn text_field(doc: JsonDoc, key: Seq<char>) -> Option<Seq<char>> {
    match field(doc, key) {
        Some(inner) => as_text(inner),
        None => None,
    }
}

/// The documents of a sequence of values.
pub open spec fn json_docs(values: Seq<serde_json::Value>) -> Seq<JsonDoc> {
    values.map_values(|v: serde_json::Value| json_doc(v))
}

/// The fields that a list of entries gives: each key with the document of
/// its value.
pub open spec fn entry_fields(entries: Seq<(String, serde_json::Value)>) -> Map<
    Seq<char>,
    JsonDoc,
>
    decreases entries.len(),
{
    if entries.len() == 0 {
        Map::empty()
    } else {
        entry_fields(entries.drop_last()).insert(entries.last().0@, json_doc(entries.last().1))
    }
}

/// Whether no key occurs twice among `entries`.
pub open spec fn distinct_keys(entries: Seq<(String, serde_json::Value)>) -> bool {
    forall|i: int, j: int|
        0 <= i < j < entries.len() ==> (#[trigger] entries[i]).0@ != (#[trigger] entries[j]).0@
}

/// `fields` with `doc` under `key`, where there is a `doc`.
pub open spec fn with_optional(
    fields: Map<Seq<char>, JsonDoc>,
    key: Seq<char>,
    doc: Option<JsonDoc>,
) -> Map<Seq<char>, JsonDoc> {
    match doc {
        Some(d) => fields.insert(key, d),
        None => fields,
    }
}

/// The key of every entry is a key of the fields.
pub proof fn lemma_entry_keys(entries: Seq<(String, serde_json::Value)>, i: int)
    requires
        0 <= i < entries.len(),
    ensures
        entry_fields(entries).contains_key(entries[i].0@),
    decreases entries.len(),
{
    if i < entries.len() - 1 {
        lemma_entry_keys(entries.drop_last(), i);
    }
}

/// `serde_json::from_str::<Value>`: parses `text`, with `None` where the
/// parser rejects it. The result is a function of the text alone, named by
/// [`json_parse`].
#[verifier::external_body]
pub(crate) fn parse(text: &str) -> (r: Option<serde_json::Value>)
    ensures
        opt_json_doc(r) == json_parse(text@),
{
    serde_json::from_str::<serde_json::Value>(text).ok()
}

/// `Value::get` with a string index: the value under `key` when `v` is an
/// object that has the key, `None` for a missing key and for anything that
/// is not an object.
#[verifier::external_body]
pub(crate) fn get<'a>(v: &'a serde_json::Value, key: &str) -> (r: Option<&'a serde_json::Value>)
    ensures
        match r {
            Some(inner) => field(json_doc(*v), key@) == Some(json_doc(*inner)),
            None => field(json_doc(*v), key@) is None,
        },
{
    v.get(key)
}

/// `Value::as_str`: the text of a string value, `None` for any other value.
#[verifier::external_body]
pub(crate) fn as_str<'a>(v: &'a serde_json::Value) -> (r: Option<&'a str>)
    ensures
        match r {
            Some(s) => as_text(json_doc(*v)) == Some(s@),
            None => as_text(json_doc(*v)) is None,
        },
{
    v.as_str()
}

/// `Value::as_array`: the elements of an array value, in order, `None` for
/// any other value.
#[verifier::external_body]
pub(crate) fn as_array<'a>(v: &'a serde_json::Value) -> (r: Option<&'a Vec<serde_json::Value>>)
    ensures
        match r {
            Some(items) => json_doc(*v) == JsonDoc::Array(json_docs(items@)),
            None => !(json_doc(*v) is Array),
        },
{
    v.as_array()
}

/// `Value::from(String)`: the string value that holds `text`.
#[verifier::external_body]
pub(crate) fn string_value(text: String) -> (r: serde_json::Value)
    ensures
        json_doc(r) == JsonDoc::Str(text@),
{
    serde_json::Value::from(text)
}

/// `Value::from(Vec<Value>)`: the array value that holds `items`, in order.
#[verifier::external_body]
pub(crate) fn array_value(items: Vec<serde_json::Value>) -> (r: serde_json::Value)
    ensures
        json_doc(r) == JsonDoc::Array(json_docs(items@)),
{
    serde_json::Value::from(items)
}

/// `Value::from_iter` over key-value pairs: the object value that holds each
/// value under its key. Asked for distinct keys only.
#[verifier::external_body]
pub(crate) fn object_value(entries: Vec<(String, serde_json::Value)>) -> (r: serde_json::Value)
    requires
        distinct_keys(entries@),
    ensures
        json_doc(r) == JsonDoc::Object(entry_fields(entries@)),
{
    serde_json::Value::from_iter(entries)
}

/// `Value::clone`: an equal value.
pub assume_specification[ <serde_json::Value as Clone>::clone ](v: &serde_json::Value) -> (r:
    serde_json::Value)
    ensures
        r == *v,
;

/// Adds `value` under `key`, which the entries do not hold yet.
pub(crate) fn put(
    entries: &mut Vec<(String, serde_json::Value)>,
    key: &str,
    value: serde_json::Value,
)
    requires
        distinct_keys(old(entries)@),
        !entry_fields(old(entries)@).contains_key(key@),
    ensures
        distinct_keys(final(entries)@),
        entry_fields(final(entries)@) == entry_fields(old(entries)@).insert(key@, json_doc(value)),
{
    let ghost before = entries@;
    entries.push((key.to_owned(), value));
    proof {
        assert(entries@.drop_last() =~= before);
        assert forall|i: int, j: int| 0 <= i < j < entries@.len() implies (#[trigger] entries@[
            i
        ]).0@ != (#[trigger] entries@[j]).0@ by {
            if j == entries@.len() - 1 {
                lemma_entry_keys(before, i);
            }
        }
    }
}

} // verus!
