//! Structured documents: the model of a decoded JSON document, the calls into
//! `serde_json` that read one, and typed field accessors over that model.

use vstd::prelude::*;

verus! {

/// A JSON number as `serde_json` holds it.
pub enum NumberView {
    /// A non-negative integer.
    PosInt(u64),
    /// A negative integer.
    NegInt(i64),
    /// A finite floating-point number (its value is never read here).
    Float,
}

/// The mathematical model of a JSON document.
pub enum JsonView {
    Null,
    Bool(bool),
    Number(NumberView),
    Str(Seq<char>),
    Array(Seq<JsonView>),
    Object(Map<Seq<char>, JsonView>),
}

#[verifier::external_type_specification]
#[verifier::external_body]
pub struct ExValue(serde_json::Value);

/// The document that a `serde_json::Value` holds.
pub uninterp spec fn json_view(v: serde_json::Value) -> JsonView;

/// The document that a text denotes, if it is well-formed JSON.
pub uninterp spec fn json_text_document(s: Seq<char>) -> Option<JsonView>;

/// Relies on `serde_json::from_str::<Value>`: it succeeds exactly on
/// well-formed JSON text, and the document it builds depends on the text alone.
#[verifier::external_body]
pub(crate) fn parse_document(s: &str) -> (r: Option<serde_json::Value>)
    ensures
        r is Some <==> json_text_document(s@) is Some,
        r is Some ==> json_view(r->0) == json_text_document(s@)->0,
{
    serde_json::from_str::<serde_json::Value>(s).ok()
}

/// Relies on `serde_json::Value::get` with a string key: the member of an
/// object under that key, and nothing for a missing key or a non-object.
#[verifier::external_body]
fn member<'a>(v: &'a serde_json::Value, key: &str) -> (r: Option<&'a serde_json::Value>)
    ensures
        r is Some <==> (json_view(*v) is Object && json_view(*v)->Object_0.contains_key(key@)),
        r is Some ==> json_view(*r->0) == json_view(*v)->Object_0[key@],
{
    v.get(key)
}

/// Relies on `serde_json::Value::as_str`: the text of a string, and nothing
/// for any other kind of value.
#[verifier::external_body]
fn as_text<'a>(v: &'a serde_json::Value) -> (r: Option<&'a str>)
    ensures
        r is Some <==> json_view(*v) is Str,
        r is Some ==> r->0@ == json_view(*v)->Str_0,
{
    v.as_str()
}

/// Relies on `serde_json::Value::as_u64`: the value of a non-negative
/// integer, and nothing for any other kind of value.
#[verifier::external_body]
fn as_unsigned(v: &serde_json::Value) -> (r: Option<u64>)
    ensures
        r == (match json_view(*v) {
            JsonView::Number(NumberView::PosInt(n)) => Some(n),
            _ => None::<u64>,
        }),
{
    v.as_u64()
}

/// Relies on `serde_json::Value::as_i64`: the value of an integer that fits
/// in `i64`, and nothing for any other kind of value.
#[verifier::external_body]
fn as_signed(v: &serde_json::Value) -> (r: Option<i64>)
    ensures
        r == (match json_view(*v) {
            JsonView::Number(NumberView::PosInt(n)) => if n <= i64::MAX {
                Some(n as i64)
            } else {
                None::<i64>
            },
            JsonView::Number(NumberView::NegInt(n)) => Some(n),
            _ => None::<i64>,
        }),
{
    v.as_i64()
}

/// Relies on `serde_json::Value::as_array`: the elements of an array, and
/// nothing for any other kind of value.
#[verifier::external_body]
fn as_list<'a>(v: &'a serde_json::Value) -> (r: Option<&'a Vec<serde_json::Value>>)
    ensures
        r is Some <==> json_view(*v) is Array,
        r is Some ==> r->0@.len() == json_view(*v)->Array_0.len(),
        r is Some ==> forall|i: int|
            0 <= i < r->0@.len() ==> json_view(#[trigger] r->0@[i]) == json_view(*v)->Array_0[i],
{
    v.as_array()
}

/// The member of an object under `key`.
pub open spec fn field(j: JsonView, key: Seq<char>) -> Option<JsonView> {
    match j {
        JsonView::Object(m) => if m.contains_key(key) {
            Some(m[key])
        } else {
            None
        },
        _ => None,
    }
}

/// The object has a member under `key`, of any kind.
pub open spec fn has_field(j: JsonView, key: Seq<char>) -> bool {
    field(j, key) is Some
}

/// The text of a string value.
pub open spec fn text_of(j: JsonView) -> Option<Seq<char>> {
    match j {
        JsonView::Str(s) => Some(s),
        _ => None,
    }
}

/// A non-negative integer value that is at most `max`.
pub open spec fn unsigned_of(j: JsonView, max: nat) -> Option<nat> {
    match j {
        JsonView::Number(NumberView::PosInt(n)) => if n <= max {
            Some(n as nat)
        } else {
            None
        },
        _ => None,
    }
}

/// An integer value within `min..=max`.
pub open spec fn signed_of(j: JsonView, min: int, max: int) -> Option<int> {
    match j {
        JsonView::Number(NumberView::PosInt(n)) => if n <= max {
            Some(n as int)
        } else {
            None
        },
        JsonView::Number(NumberView::NegInt(n)) => if min <= n <= max {
            Some(n as int)
        } else {
            None
        },
        _ => None,
    }
}

/// The texts of an array whose elements are all strings.
pub open spec fn text_list_of(j: JsonView) -> Option<Seq<Seq<char>>> {
    match j {
        JsonView::Array(items) => if forall|i: int| 0 <= i < items.len() ==> #[trigger] items[i] is Str {
            Some(items.map_values(|e: JsonView| e->Str_0))
        } else {
            None
        },
        _ => None,
    }
}

/// The text under `key`.
pub open spec fn text_field(j: JsonView, key: Seq<char>) -> Option<Seq<char>> {
    match field(j, key) {
        Some(f) => text_of(f),
        None => None,
    }
}

/// The text of a timestamp under `key`; empty when it is missing or not a string.
pub open spec fn time_field(j: JsonView, key: Seq<char>) -> Seq<char> {
    match text_field(j, key) {
        Some(t) => t,
        None => Seq::empty(),
    }
}

/// The non-negative integer under `key`, if it is at most `max`.
pub open spec fn unsigned_field(j: JsonView, key: Seq<char>, max: nat) -> Option<nat> {
    match field(j, key) {
        Some(f) => unsigned_of(f, max),
        None => None,
    }
}

/// The integer under `key`, if it lies within `min..=max`.
pub open spec fn signed_field(j: JsonView, key: Seq<char>, min: int, max: int) -> Option<int> {
    match field(j, key) {
        Some(f) => signed_of(f, min, max),
        None => None,
    }
}

/// The list of texts under `key`.
pub open spec fn text_list_field(j: JsonView, key: Seq<char>) -> Option<Seq<Seq<char>>> {
    match field(j, key) {
        Some(f) => text_list_of(f),
        None => None,
    }
}

/// The views of a list of strings.
pub open spec fn texts_view(v: Seq<String>) -> Seq<Seq<char>> {
    v.map_values(|s: String| s@)
}

/// Whether the document has a member under `key`.
pub fn has_member(v: &serde_json::Value, key: &str) -> (r: bool)
    ensures
        r == has_field(json_view(*v), key@),
{
    member(v, key).is_some()
}

/// The member under `key`, if there is one.
pub fn member_of<'a>(v: &'a serde_json::Value, key: &str) -> (r: Option<&'a serde_json::Value>)
    ensures
        r is Some <==> field(json_view(*v), key@) is Some,
        r is Some ==> Some(json_view(*r->0)) == field(json_view(*v), key@),
{
    member(v, key)
}

/// The text under `key`.
pub fn text_at(v: &serde_json::Value, key: &str) -> (r: Option<String>)
    ensures
        r is Some <==> text_field(json_view(*v), key@) is Some,
        r is Some ==> Some(r->0@) == text_field(json_view(*v), key@),
{
    match member(v, key) {
        Some(f) => match as_text(f) {
            Some(s) => Some(s.to_owned()),
            None => None,
        },
        None => None,
    }
}

/// The text of a timestamp under `key`, or an empty text that no time reading accepts.
pub fn time_text_at(v: &serde_json::Value, key: &str) -> (r: String)
    ensures
        r@ == time_field(json_view(*v), key@),
{
    match text_at(v, key) {
        Some(t) => t,
        None => String::new(),
    }
}

/// The non-negative integer under `key`, if it fits in `u64`.
pub fn u64_at(v: &serde_json::Value, key: &str) -> (r: Option<u64>)
    ensures
        r is Some <==> unsigned_field(json_view(*v), key@, u64::MAX as nat) is Some,
        r is Some ==> Some(r->0 as nat) == unsigned_field(json_view(*v), key@, u64::MAX as nat),
{
    match member(v, key) {
        Some(f) => as_unsigned(f),
        None => None,
    }
}

/// The non-negative integer under `key`, if it fits in `u32`.
pub fn u32_at(v: &serde_json::Value, key: &str) -> (r: Option<u32>)
    ensures
        r is Some <==> unsigned_field(json_view(*v), key@, u32::MAX as nat) is Some,
        r is Some ==> Some(r->0 as nat) == unsigned_field(json_view(*v), key@, u32::MAX as nat),
{
    match u64_at(v, key) {
        Some(n) => if n <= u32::MAX as u64 {
            Some(n as u32)
        } else {
            None
        },
        None => None,
    }
}

/// The non-negative integer under `key`, if it fits in `u8`.
pub fn u8_at(v: &serde_json::Value, key: &str) -> (r: Option<u8>)
    ensures
        r is Some <==> unsigned_field(json_view(*v), key@, u8::MAX as nat) is Some,
        r is Some ==> Some(r->0 as nat) == unsigned_field(json_view(*v), key@, u8::MAX as nat),
{
    match u64_at(v, key) {
        Some(n) => if n <= u8::MAX as u64 {
            Some(n as u8)
        } else {
            None
        },
        None => None,
    }
}

/// The integer under `key`, if it fits in `i32`.
pub fn i32_at(v: &serde_json::Value, key: &str) -> (r: Option<i32>)
    ensures
        r is Some <==> signed_field(json_view(*v), key@, i32::MIN as int, i32::MAX as int) is Some,
        r is Some ==> Some(r->0 as int) == signed_field(
            json_view(*v),
            key@,
            i32::MIN as int,
            i32::MAX as int,
        ),
{
    match member(v, key) {
        Some(f) => match as_signed(f) {
            Some(n) => if i32::MIN as i64 <= n && n <= i32::MAX as i64 {
                Some(n as i32)
            } else {
                None
            },
            None => None,
        },
        None => None,
    }
}

/// The integer under `key`, if it fits in `i64`.
pub fn i64_at(v: &serde_json::Value, key: &str) -> (r: Option<i64>)
    ensures
        r is Some <==> signed_field(json_view(*v), key@, i64::MIN as int, i64::MAX as int) is Some,
        r is Some ==> Some(r->0 as int) == signed_field(
            json_view(*v),
            key@,
            i64::MIN as int,
            i64::MAX as int,
        ),
{
    match member(v, key) {
        Some(f) => as_signed(f),
        None => None,
    }
}

/// The texts of a list of strings.
pub fn text_list(v: &serde_json::Value) -> (r: Option<Vec<String>>)
    ensures
        r is Some <==> text_list_of(json_view(*v)) is Some,
        r is Some ==> Some(texts_view(r->0@)) == text_list_of(json_view(*v)),
{
    let items = match as_list(v) {
        Some(items) => items,
        None => return None,
    };
    let ghost js = json_view(*v)->Array_0;
    let mut out: Vec<String> = Vec::new();
    let mut i: usize = 0;
    while i < items.len()
        invariant
            json_view(*v) is Array,
            js == json_view(*v)->Array_0,
            items@.len() == js.len(),
            forall|k: int| 0 <= k < items@.len() ==> json_view(#[trigger] items@[k]) == js[k],
            i <= items@.len(),
            out@.len() == i,
            forall|k: int| 0 <= k < i ==> (#[trigger] js[k]) is Str,
            forall|k: int| 0 <= k < i ==> (#[trigger] out@[k])@ == js[k]->Str_0,
        decreases items@.len() - i,
    {
        match as_text(&items[i]) {
            Some(s) => {
                assert(js[i as int] is Str);
                let ghost before = out@;
                let t = s.to_owned();
                out.push(t);
                assert forall|k: int| 0 <= k < i + 1 implies (#[trigger] out@[k])@ == js[k]->Str_0 by {
                    if k < i {
                        assert(before[k] == out@[k]);
                    }
                }
            },
            None => {
                assert(!(js[i as int] is Str));
                return None;
            },
        }
        i = i + 1;
    }
    assert(texts_view(out@) =~= js.map_values(|e: JsonView| e->Str_0)) by {
        assert forall|k: int| 0 <= k < js.len() implies #[trigger] texts_view(out@)[k] == js.map_values(
            |e: JsonView| e->Str_0,
        )[k] by {
            assert(out@[k]@ == js[k]->Str_0);
        }
    }
    Some(out)
}

/// The texts of the list of strings under `key`.
pub fn text_list_at(v: &serde_json::Value, key: &str) -> (r: Option<Vec<String>>)
    ensures
        r is Some <==> text_list_field(json_view(*v), key@) is Some,
        r is Some ==> Some(texts_view(r->0@)) == text_list_field(json_view(*v), key@),
{
    match member(v, key) {
        Some(f) => text_list(f),
        None => None,
    }
}

/// The elements of an array.
pub fn list_of<'a>(v: &'a serde_json::Value) -> (r: Option<&'a Vec<serde_json::Value>>)
    ensures
        r is Some <==> json_view(*v) is Array,
        r is Some ==> r->0@.len() == json_view(*v)->Array_0.len(),
        r is Some ==> forall|i: int|
            0 <= i < r->0@.len() ==> json_view(#[trigger] r->0@[i]) == json_view(*v)->Array_0[i],
{
    as_list(v)
}

} // verus!
