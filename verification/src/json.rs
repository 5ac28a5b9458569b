//! A JSON tree the library can reason about, and the one trusted step
//! that obtains it: handing the raw text to serde_json and rewriting the
//! parsed value into this shape.

use vstd::prelude::*;

verus! {

/// A parsed JSON value. Numbers the envelope cares about are unsigned
/// integers; any other number (negative, fractional, too large) is kept
/// as `NumOther` so that parsing never fails on it but no field reads it.
pub enum Json {
    Null,
    Bool(bool),
    Num(u64),
    NumOther,
    Str(String),
    Arr(Vec<Json>),
    Obj(Vec<(String, Json)>),
}

/// The mathematical shape of a `Json` tree.
pub enum JsonView {
    Null,
    Bool(bool),
    Num(u64),
    NumOther,
    Str(Seq<char>),
    Arr(Seq<JsonView>),
    Obj(Seq<(Seq<char>, JsonView)>),
}

/// The view of a `Json` tree, node for node.
pub open spec fn json_view(j: Json) -> JsonView
    decreases j,
{
    match j {
        Json::Null => JsonView::Null,
        Json::Bool(b) => JsonView::Bool(b),
        Json::Num(n) => JsonView::Num(n),
        Json::NumOther => JsonView::NumOther,
        Json::Str(s) => JsonView::Str(s@),
        Json::Arr(items) => JsonView::Arr(arr_view(items@)),
        Json::Obj(fields) => JsonView::Obj(obj_fields_view(fields@)),
    }
}

/// The view of an array's items.
pub open spec fn arr_view(items: Seq<Json>) -> Seq<JsonView>
    decreases items,
{
    Seq::new(
        items.len(),
        |i: int|
            if 0 <= i < items.len() {
                json_view(items[i])
            } else {
                JsonView::Null
            },
    )
}

/// The view of an object's fields, binding for binding.
pub open spec fn obj_fields_view(fields: Seq<(String, Json)>) -> Seq<(Seq<char>, JsonView)>
    decreases fields,
{
    Seq::new(
        fields.len(),
        |i: int|
            if 0 <= i < fields.len() {
                (fields[i].0@, json_view(fields[i].1))
            } else {
                (Seq::<char>::empty(), JsonView::Null)
            },
    )
}

impl View for Json {
    type V = JsonView;

    open spec fn view(&self) -> JsonView {
        json_view(*self)
    }
}

/// The view of an option of a tree.
pub open spec fn opt_json_view(r: Option<Json>) -> Option<JsonView> {
    match r {
        Some(j) => Some(j@),
        None => None,
    }
}

/// What parsing a text as JSON yields: `None` on malformed text, otherwise
/// the one tree the text denotes. Named rather than written out: the JSON
/// grammar is serde_json's business, not this library's.
pub uninterp spec fn json_of(s: Seq<char>) -> Option<JsonView>;

#[verifier::external_type_specification]
#[verifier::external_body]
pub struct ExValue(serde_json::Value);

/// Relies on serde_json::from_str for `serde_json::Value`: it succeeds
/// exactly on well-formed JSON text, and the value it returns is a
/// function of the text alone; `json_of` names that result. The traversal
/// into the library's own `Json` is `value_to_json` below.
#[verifier::external_body]
pub(crate) fn parse_json(s: &str) -> (r: Option<Json>)
    ensures
        opt_json_view(r) == json_of(s@),
{
    match serde_json::from_str::<serde_json::Value>(s) {
        Ok(v) => Some(value_to_json(&v)),
        Err(_) => None,
    }
}

/// Relies on the shape of serde_json::Value: rewrites a parsed value into
/// the library's `Json`, arm for arm; an integer that fits `u64` keeps its
/// value, any other number becomes `NumOther`. Only `parse_json` calls
/// this; it is the recursive half of that one trusted step.
#[verifier::external_body]
fn value_to_json(v: &serde_json::Value) -> Json {
    match v {
        serde_json::Value::Null => Json::Null,
        serde_json::Value::Bool(b) => Json::Bool(*b),
        serde_json::Value::Number(n) => match n.as_u64() {
            Some(u) => Json::Num(u),
            None => Json::NumOther,
        },
        serde_json::Value::String(s) => Json::Str(s.clone()),
        serde_json::Value::Array(a) => Json::Arr(a.iter().map(value_to_json).collect()),
        serde_json::Value::Object(o) => Json::Obj(
            o.iter().map(|(k, x)| (k.clone(), value_to_json(x))).collect(),
        ),
    }
}

/// The value under `key` in an object's fields: the first binding that
/// carries the key, if any.
pub open spec fn spec_lookup(fields: Seq<(Seq<char>, JsonView)>, key: Seq<char>) -> Option<
    JsonView,
>
    decreases fields.len(),
{
    if fields.len() == 0 {
        None
    } else if fields[0].0 == key {
        Some(fields[0].1)
    } else {
        spec_lookup(fields.drop_first(), key)
    }
}

/// Looks `key` up among an object's fields.
pub fn obj_get<'a>(fields: &'a Vec<(String, Json)>, key: &str) -> (r: Option<&'a Json>)
    ensures
        match r {
            Some(j) => spec_lookup(obj_fields_view(fields@), key@) == Some(j@),
            None => spec_lookup(obj_fields_view(fields@), key@) is None,
        },
{
    let ghost fv = obj_fields_view(fields@);
    proof {
        assert(fv.skip(0) =~= fv);
    }
    let n = fields.len();
    let mut i: usize = 0;
    while i < n
        invariant
            0 <= i <= n,
            n == fields@.len(),
            fv == obj_fields_view(fields@),
            spec_lookup(fv, key@) == spec_lookup(fv.skip(i as int), key@),
        decreases n - i,
    {
        let entry = &fields[i];
        if crate::text::str_eq(entry.0.as_str(), key) {
            proof {
                assert(fv.skip(i as int)[0] == fv[i as int]);
            }
            return Some(&entry.1);
        }
        proof {
            assert(fv.skip(i as int)[0] == fv[i as int]);
            assert(fv.skip(i as int).drop_first() =~= fv.skip(i as int + 1));
        }
        i += 1;
    }
    proof {
        assert(fv.skip(n as int).len() == 0);
    }
    None
}

} // verus!
