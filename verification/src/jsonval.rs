//! The JSON model the response decoders are specified against.
//!
//! Response bodies are parsed by `serde_json` into `serde_json::Value`;
//! Verus sees that type as opaque, so its contents are given a name:
//! [`json_of`] maps a value to a [`JsonData`] tree of plain ghost data, and
//! [`json_parse_doc`] names what parsing a byte sequence yields.  Small
//! trusted accessors expose one node at a time; everything built on top of
//! them — field lookup, the number-or-string id coercion, and each payload
//! decoder — is verified against `JsonData`.

use vstd::prelude::*;

verus! {

use vstd::string::StringSliceAdditionalSpecFns;
use vstd::utf8::encode_utf8;
use crate::bytestr::parse_u64_spec;

/// A JSON document, as ghost data.  A number is remembered by what
/// `as_u64` / `as_i64` give for it, which is all the decoders read.
pub enum JsonData {
    Null,
    Bool(bool),
    Num { u: Option<u64>, i: Option<i64> },
    Str(Seq<char>),
    Arr(Seq<JsonData>),
    Obj(Map<Seq<char>, JsonData>),
}

#[verifier::external_type_specification]
#[verifier::external_body]
pub struct ExValue(serde_json::Value);

/// What a `serde_json::Value` holds.  Everything the trusted accessors below
/// say is said in terms of this name.
pub uninterp spec fn json_of(v: serde_json::Value) -> JsonData;

/// What parsing a byte sequence as one JSON document yields: `None` when the
/// bytes are not a document, otherwise its contents.
pub uninterp spec fn json_parse_doc(bytes: Seq<u8>) -> Option<JsonData>;

/// Relies on `serde_json::from_slice::<Value>`: whether bytes parse, and to
/// what, is a function of the bytes alone.
#[verifier::external_body]
pub fn json_from_slice(bytes: &[u8]) -> (r: Option<serde_json::Value>)
    ensures
        r is Some <==> json_parse_doc(bytes@) is Some,
        r matches Some(v) ==> json_parse_doc(bytes@) == Some(json_of(v)),
{
    serde_json::from_slice(bytes).ok()
}

/// Relies on `serde_json::Value::is_object`.
#[verifier::external_body]
pub fn value_is_object(v: &serde_json::Value) -> (r: bool)
    ensures
        r == (json_of(*v) is Obj),
{
    v.is_object()
}

/// Relies on `serde_json::Value::get` with a string index: the member of an
/// object under that key, `None` on other nodes or absent keys.
#[verifier::external_body]
pub fn value_get<'a>(v: &'a serde_json::Value, key: &str) -> (r: Option<&'a serde_json::Value>)
    ensures
        match json_of(*v) {
            JsonData::Obj(m) => {
                if m.contains_key(key@) {
                    r matches Some(x) && json_of(*x) == m[key@]
                } else {
                    r is None
                }
            },
            _ => r is None,
        },
{
    v.get(key)
}

/// Relies on `serde_json::Value::as_str`.
#[verifier::external_body]
pub fn value_as_str<'a>(v: &'a serde_json::Value) -> (r: Option<&'a str>)
    ensures
        match json_of(*v) {
            JsonData::Str(t) => r matches Some(s) && s@ == t,
            _ => r is None,
        },
{
    v.as_str()
}

/// Relies on `serde_json::Value::as_u64`.
#[verifier::external_body]
pub fn value_as_u64(v: &serde_json::Value) -> (r: Option<u64>)
    ensures
        match json_of(*v) {
            JsonData::Num { u, i } => r == u,
            _ => r is None,
        },
{
    v.as_u64()
}

/// Relies on `serde_json::Value::as_i64`.
#[verifier::external_body]
pub fn value_as_i64(v: &serde_json::Value) -> (r: Option<i64>)
    ensures
        match json_of(*v) {
            JsonData::Num { u, i } => r == i,
            _ => r is None,
        },
{
    v.as_i64()
}

/// Relies on `serde_json::Value::as_bool`.
#[verifier::external_body]
pub fn value_as_bool(v: &serde_json::Value) -> (r: Option<bool>)
    ensures
        match json_of(*v) {
            JsonData::Bool(b) => r == Some(b),
            _ => r is None,
        },
{
    v.as_bool()
}

/// Relies on `serde_json::Value::is_null`.
#[verifier::external_body]
pub fn value_is_null(v: &serde_json::Value) -> (r: bool)
    ensures
        r == (json_of(*v) is Null),
{
    v.is_null()
}

/// Relies on `serde_json::Value::as_array`.
#[verifier::external_body]
pub fn value_as_array<'a>(v: &'a serde_json::Value) -> (r: Option<&'a Vec<serde_json::Value>>)
    ensures
        match json_of(*v) {
            JsonData::Arr(a) => {
                &&& r matches Some(elems)
                &&& elems@.len() == a.len()
                &&& forall|j: int| 0 <= j < a.len() ==> json_of(elems@[j]) == a[j]
            },
            _ => r is None,
        },
{
    v.as_array()
}

/// Relies on `serde_json::Value::as_object` and the map's iterator: the
/// members of an object, each key once, in the map's own (sorted) order.
#[verifier::external_body]
pub fn value_entries(v: &serde_json::Value) -> (r: Option<Vec<(String, serde_json::Value)>>)
    ensures
        match json_of(*v) {
            JsonData::Obj(m) => {
                &&& r matches Some(es)
                &&& forall|j: int|
                    0 <= j < es@.len() ==> m.contains_key(#[trigger] es@[j].0@) && json_of(
                        es@[j].1,
                    ) == m[es@[j].0@]
                &&& forall|j: int, k: int| 0 <= j < k < es@.len() ==> es@[j].0@ != es@[k].0@
                &&& forall|key: Seq<char>|
                    m.contains_key(key) ==> exists|j: int|
                        0 <= j < es@.len() && #[trigger] es@[j].0@ == key
            },
            _ => r is None,
        },
{
    v.as_object().map(
        |m| m.iter().map(|(k, x)| (k.clone(), x.clone())).collect::<Vec<_>>(),
    )
}

/// The member of an object under `k`; `None` elsewhere.
pub open spec fn jget(j: JsonData, k: Seq<char>) -> Option<JsonData> {
    match j {
        JsonData::Obj(m) => if m.contains_key(k) {
            Some(m[k])
        } else {
            None
        },
        _ => None,
    }
}

/// A numeric field that may arrive as a JSON number or as a string of
/// digits; both decode to the same `u64`.
pub open spec fn jnum_coerced(j: JsonData) -> Option<u64> {
    match j {
        JsonData::Num { u, i } => u,
        JsonData::Str(t) => parse_u64_spec(encode_utf8(t)),
        _ => None,
    }
}

/// The decimal digits of `n`, as characters.
pub open spec fn u64_dec_chars(n: u64) -> Seq<char> {
    crate::bytestr::u64_dec_bytes(n as nat).map(|_i: int, b: u8| b as char)
}

/// A numeric id decodes to the same value whether the server sends it as a
/// JSON number or as its decimal digits in a string.
pub proof fn lemma_numeric_id_coercion_agrees(n: u64, i: Option<i64>)
    ensures
        jnum_coerced(JsonData::Num { u: Some(n), i }) == Some(n),
        jnum_coerced(JsonData::Str(u64_dec_chars(n))) == Some(n),
{
    crate::urlenc::lemma_dec_bytes_ascii(n as nat);
    assert(vstd::utf8::is_ascii_chars(u64_dec_chars(n)));
    vstd::utf8::is_ascii_chars_encode_utf8(u64_dec_chars(n));
    assert(encode_utf8(u64_dec_chars(n)) =~= crate::bytestr::u64_dec_bytes(n as nat));
    crate::bytestr::lemma_parse_u64_dec_bytes(n);
}

/// Field lookup composed with the number-or-string coercion.
pub open spec fn jfield_u64_coerced(j: JsonData, k: Seq<char>) -> Option<u64> {
    match jget(j, k) {
        Some(x) => jnum_coerced(x),
        None => None,
    }
}

/// A required plain (uncoerced) unsigned number field.
pub open spec fn jfield_u64(j: JsonData, k: Seq<char>) -> Option<u64> {
    match jget(j, k) {
        Some(JsonData::Num { u, i }) => u,
        _ => None,
    }
}

/// A required string field.
pub open spec fn jfield_str(j: JsonData, k: Seq<char>) -> Option<Seq<char>> {
    match jget(j, k) {
        Some(JsonData::Str(t)) => Some(t),
        _ => None,
    }
}

/// A required boolean field.
pub open spec fn jfield_bool(j: JsonData, k: Seq<char>) -> Option<bool> {
    match jget(j, k) {
        Some(JsonData::Bool(b)) => Some(b),
        _ => None,
    }
}

/// An optional string field: an absent key or a JSON `null` is an absent
/// value; any node other than a string fails the decode.
pub open spec fn jfield_opt_str(j: JsonData, k: Seq<char>) -> Option<Option<Seq<char>>> {
    match jget(j, k) {
        None => Some(None),
        Some(JsonData::Null) => Some(None),
        Some(JsonData::Str(t)) => Some(Some(t)),
        Some(_) => None,
    }
}

/// A string field that defaults to empty when the key is absent; a `null`
/// still fails, as it would for a non-optional field.
pub open spec fn jfield_str_default(j: JsonData, k: Seq<char>) -> Option<Seq<char>> {
    match jget(j, k) {
        None => Some(Seq::empty()),
        Some(JsonData::Str(t)) => Some(t),
        Some(_) => None,
    }
}

/// An optional plain unsigned number field.
pub open spec fn jfield_opt_u64(j: JsonData, k: Seq<char>) -> Option<Option<u64>> {
    match jget(j, k) {
        None => Some(None),
        Some(JsonData::Null) => Some(None),
        Some(JsonData::Num { u: Some(x), i }) => Some(Some(x)),
        Some(_) => None,
    }
}

/// An optional signed number field.
pub open spec fn jfield_opt_i64(j: JsonData, k: Seq<char>) -> Option<Option<i64>> {
    match jget(j, k) {
        None => Some(None),
        Some(JsonData::Null) => Some(None),
        Some(JsonData::Num { u, i: Some(x) }) => Some(Some(x)),
        Some(_) => None,
    }
}

/// An optional numeric field under the number-or-string coercion.
pub open spec fn jfield_opt_u64_coerced(j: JsonData, k: Seq<char>) -> Option<Option<u64>> {
    match jget(j, k) {
        None => Some(None),
        Some(JsonData::Null) => Some(None),
        Some(x) => match jnum_coerced(x) {
            Some(u) => Some(Some(u)),
            None => None,
        },
    }
}

/// A required signed number field.
pub open spec fn jfield_i64(j: JsonData, k: Seq<char>) -> Option<i64> {
    match jget(j, k) {
        Some(JsonData::Num { u, i }) => i,
        _ => None,
    }
}

/// A required field holding a `u32`: a JSON integer in range.
pub open spec fn jfield_u32(j: JsonData, k: Seq<char>) -> Option<u32> {
    match jfield_u64(j, k) {
        Some(x) => if x <= u32::MAX {
            Some(x as u32)
        } else {
            None
        },
        None => None,
    }
}

/// Decode of a sequence of nodes, all or nothing.
pub open spec fn dec_elem_seq<T>(a: Seq<JsonData>, f: spec_fn(JsonData) -> Option<T>) -> Option<
    Seq<T>,
>
    decreases a.len(),
{
    if a.len() == 0 {
        Some(Seq::empty())
    } else {
        match dec_elem_seq(a.drop_last(), f) {
            None => None,
            Some(pre) => match f(a.last()) {
                None => None,
                Some(x) => Some(pre.push(x)),
            },
        }
    }
}

/// Once a prefix fails to decode, the whole sequence fails.
pub proof fn lemma_dec_elem_seq_prefix_none<T>(a: Seq<JsonData>, f: spec_fn(JsonData) -> Option<T>, n: int)
    requires
        0 <= n <= a.len(),
        dec_elem_seq(a.subrange(0, n), f) is None,
    ensures
        dec_elem_seq(a, f) is None,
    decreases a.len() - n,
{
    if n < a.len() {
        let p2 = a.subrange(0, n + 1);
        assert(p2.drop_last() =~= a.subrange(0, n));
        lemma_dec_elem_seq_prefix_none(a, f, n + 1);
    } else {
        assert(a.subrange(0, n) =~= a);
    }
}

/// Looks a field up, handing back a borrowed node.
pub fn get_field<'a>(v: &'a serde_json::Value, k: &str) -> (r: Option<&'a serde_json::Value>)
    ensures
        match r {
            Some(x) => jget(json_of(*v), k@) == Some(json_of(*x)),
            None => jget(json_of(*v), k@) is None,
        },
{
    value_get(v, k)
}

/// Reads a numeric field that may be a JSON number or a digit string.
pub fn field_u64_coerced(v: &serde_json::Value, k: &str) -> (r: Option<u64>)
    ensures
        r == jfield_u64_coerced(json_of(*v), k@),
{
    match get_field(v, k) {
        None => None,
        Some(x) => match value_as_u64(x) {
            Some(u) => Some(u),
            None => match value_as_str(x) {
                Some(s) => crate::bytestr::parse_u64(s.as_bytes()),
                None => None,
            },
        },
    }
}

/// Reads a required plain unsigned number field.
pub fn field_u64(v: &serde_json::Value, k: &str) -> (r: Option<u64>)
    ensures
        r == jfield_u64(json_of(*v), k@),
{
    match get_field(v, k) {
        None => None,
        Some(x) => value_as_u64(x),
    }
}

/// Reads a required string field.
pub fn field_string(v: &serde_json::Value, k: &str) -> (r: Option<String>)
    ensures
        match r {
            Some(s) => jfield_str(json_of(*v), k@) == Some(s@),
            None => jfield_str(json_of(*v), k@) is None,
        },
{
    match get_field(v, k) {
        None => None,
        Some(x) => match value_as_str(x) {
            Some(s) => Some(s.to_owned()),
            None => None,
        },
    }
}

/// Reads a required boolean field.
pub fn field_bool(v: &serde_json::Value, k: &str) -> (r: Option<bool>)
    ensures
        r == jfield_bool(json_of(*v), k@),
{
    match get_field(v, k) {
        None => None,
        Some(x) => value_as_bool(x),
    }
}

/// Reads a required `u32` field.
pub fn field_u32(v: &serde_json::Value, k: &str) -> (r: Option<u32>)
    ensures
        r == jfield_u32(json_of(*v), k@),
{
    match field_u64(v, k) {
        Some(x) => {
            if x <= 0xffff_ffffu64 {
                Some(x as u32)
            } else {
                None
            }
        },
        None => None,
    }
}

/// Reads an optional string field.
pub fn field_opt_string(v: &serde_json::Value, k: &str) -> (r: Option<Option<String>>)
    ensures
        match r {
            Some(Some(s)) => jfield_opt_str(json_of(*v), k@) == Some(Some(s@)),
            Some(None) => jfield_opt_str(json_of(*v), k@) == Some(None::<Seq<char>>),
            None => jfield_opt_str(json_of(*v), k@) is None,
        },
{
    match get_field(v, k) {
        None => Some(None),
        Some(x) => {
            if value_is_null(x) {
                Some(None)
            } else {
                match value_as_str(x) {
                    Some(s) => Some(Some(s.to_owned())),
                    None => None,
                }
            }
        },
    }
}

/// Reads a string field that defaults to empty when absent.
pub fn field_string_default(v: &serde_json::Value, k: &str) -> (r: Option<String>)
    ensures
        match r {
            Some(s) => jfield_str_default(json_of(*v), k@) == Some(s@),
            None => jfield_str_default(json_of(*v), k@) is None,
        },
{
    match get_field(v, k) {
        None => {
            let s = String::new();
            Some(s)
        },
        Some(x) => match value_as_str(x) {
            Some(s) => Some(s.to_owned()),
            None => None,
        },
    }
}

/// Reads an optional plain unsigned number field.
pub fn field_opt_u64(v: &serde_json::Value, k: &str) -> (r: Option<Option<u64>>)
    ensures
        r == jfield_opt_u64(json_of(*v), k@),
{
    match get_field(v, k) {
        None => Some(None),
        Some(x) => {
            if value_is_null(x) {
                Some(None)
            } else {
                match value_as_u64(x) {
                    Some(u) => Some(Some(u)),
                    None => None,
                }
            }
        },
    }
}

/// Reads an optional signed number field.
pub fn field_opt_i64(v: &serde_json::Value, k: &str) -> (r: Option<Option<i64>>)
    ensures
        r == jfield_opt_i64(json_of(*v), k@),
{
    match get_field(v, k) {
        None => Some(None),
        Some(x) => {
            if value_is_null(x) {
                Some(None)
            } else {
                match value_as_i64(x) {
                    Some(u) => Some(Some(u)),
                    None => None,
                }
            }
        },
    }
}

/// Reads an optional numeric field under the number-or-string coercion.
pub fn field_opt_u64_coerced(v: &serde_json::Value, k: &str) -> (r: Option<Option<u64>>)
    ensures
        r == jfield_opt_u64_coerced(json_of(*v), k@),
{
    match get_field(v, k) {
        None => Some(None),
        Some(x) => {
            if value_is_null(x) {
                Some(None)
            } else {
                match value_as_u64(x) {
                    Some(u) => Some(Some(u)),
                    None => match value_as_str(x) {
                        Some(s) => match crate::bytestr::parse_u64(s.as_bytes()) {
                            Some(u) => Some(Some(u)),
                            None => None,
                        },
                        None => None,
                    },
                }
            }
        },
    }
}

/// Reads a required signed number field.
pub fn field_i64(v: &serde_json::Value, k: &str) -> (r: Option<i64>)
    ensures
        r == jfield_i64(json_of(*v), k@),
{
    match get_field(v, k) {
        None => None,
        Some(x) => value_as_i64(x),
    }
}

} // verus!
