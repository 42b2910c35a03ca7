//! A model of JSON values.
//!
//! The backend speaks JSON.  `Json` is the executable form of a JSON value;
//! `JsonV` is its mathematical view: object contents become a `Map` from key
//! to value, so that neither the order of the fields nor a repeated key (the
//! last occurrence wins) is visible in a contract.  Numbers are modeled as
//! signed 64-bit integers; a document holding any other number (a float, or
//! an integer out of that range) has no form here and parsing reports failure.

use vstd::prelude::*;

verus! {

/// A JSON value.
#[derive(Debug)]
pub enum Json {
    Null,
    Bool(bool),
    Int(i64),
    Str(String),
    Arr(Vec<Json>),
    Obj(Vec<(String, Json)>),
}

/// The mathematical form of a JSON value.
#[verifier::ext_equal]
pub enum JsonV {
    Null,
    Bool(bool),
    Int(int),
    Str(Seq<char>),
    Arr(Seq<JsonV>),
    Obj(Map<Seq<char>, JsonV>),
}

/// The view of an array's elements, in order.
pub open spec fn arr_view(a: Seq<Json>) -> Seq<JsonV>
    decreases a,
{
    if a.len() == 0 {
        Seq::empty()
    } else {
        arr_view(a.subrange(0, a.len() - 1)).push(json_view(a[a.len() - 1]))
    }
}

/// The view of an object's fields: later occurrences of a key win.
pub open spec fn obj_view(o: Seq<(String, Json)>) -> Map<Seq<char>, JsonV>
    decreases o,
{
    if o.len() == 0 {
        Map::empty()
    } else {
        obj_view(o.subrange(0, o.len() - 1)).insert(o[o.len() - 1].0@, json_view(o[o.len() - 1].1))
    }
}

/// The view of a JSON value.
pub open spec fn json_view(j: Json) -> JsonV
    decreases j,
{
    match j {
        Json::Null => JsonV::Null,
        Json::Bool(b) => JsonV::Bool(b),
        Json::Int(i) => JsonV::Int(i as int),
        Json::Str(s) => JsonV::Str(s@),
        Json::Arr(a) => JsonV::Arr(arr_view(a@)),
        Json::Obj(o) => JsonV::Obj(obj_view(o@)),
    }
}

impl View for Json {
    type V = JsonV;

    open spec fn view(&self) -> JsonV {
        json_view(*self)
    }
}

/// An array's view has one element for each of the array's, in order.
pub proof fn lemma_arr_view(s: Seq<Json>)
    ensures
        arr_view(s).len() == s.len(),
        forall|k: int| 0 <= k < s.len() ==> arr_view(s)[k] == json_view(s[k]),
    decreases s.len(),
{
    if s.len() > 0 {
        lemma_arr_view(s.subrange(0, s.len() - 1));
    }
}

/// An index whose key no later index repeats holds the value that the
/// object's view gives that key.
pub proof fn lemma_obj_view_found(o: Seq<(String, Json)>, i: int)
    requires
        0 <= i < o.len(),
        forall|l: int| i < l < o.len() ==> o[l].0@ != o[i].0@,
    ensures
        obj_view(o).contains_key(o[i].0@),
        obj_view(o)[o[i].0@] == json_view(o[i].1),
    decreases o.len(),
{
    if i < o.len() - 1 {
        let o2 = o.subrange(0, o.len() - 1);
        lemma_obj_view_found(o2, i);
    }
}

/// A key that no index carries is not in the object's view.
pub proof fn lemma_obj_view_absent(o: Seq<(String, Json)>, k: Seq<char>)
    requires
        forall|l: int| 0 <= l < o.len() ==> o[l].0@ != k,
    ensures
        !obj_view(o).contains_key(k),
    decreases o.len(),
{
    if o.len() > 0 {
        lemma_obj_view_absent(o.subrange(0, o.len() - 1), k);
    }
}

/// Looks a key up among an object's fields; the last occurrence wins,
/// as in the object's view.
pub fn obj_get<'a>(o: &'a Vec<(String, Json)>, name: &str) -> (r: Option<&'a Json>)
    ensures
        (r matches Some(j) ==> obj_view(o@).contains_key(name@) && obj_view(o@)[name@]
            == json_view(*j)),
        (r is None ==> !obj_view(o@).contains_key(name@)),
{
    let key: String = name.to_owned();
    let mut i: usize = o.len();
    while i > 0
        invariant
            i <= o.len(),
            key@ == name@,
            forall|l: int| i <= l < o@.len() ==> o@[l].0@ != name@,
        decreases i,
    {
        i = i - 1;
        if o[i].0 == key {
            proof {
                lemma_obj_view_found(o@, i as int);
            }
            return Some(&o[i].1);
        }
    }
    proof {
        lemma_obj_view_absent(o@, name@);
    }
    None
}

#[verifier::external_type_specification]
#[verifier::external_body]
pub struct ExValue(serde_json::Value);

/// The form of a `serde_json::Value`: `None` where the value holds a number
/// outside the signed 64-bit integers (a float among them), the value's
/// `JsonV` otherwise.
pub uninterp spec fn value_model(v: serde_json::Value) -> Option<JsonV>;

/// What parsing a text yields: `None` where the text is not well-formed JSON
/// or holds a number with no form here, the document's `JsonV` otherwise.
pub uninterp spec fn json_of(s: Seq<char>) -> Option<JsonV>;

/// The JSON text of a value of the given form.
pub uninterp spec fn text_of(j: JsonV) -> Seq<char>;

/// Relies on `serde_json::from_str::<Value>`: whether it succeeds, and with
/// what value, depends on the text alone.
#[verifier::external_body]
fn parse_value(s: &str) -> (r: Option<serde_json::Value>)
    ensures
        (r matches Some(v) ==> json_of(s@) == value_model(v)),
        (r is None ==> json_of(s@) is None),
{
    serde_json::from_str::<serde_json::Value>(s).ok()
}

/// Relies on the public variants of `serde_json::Value` and on
/// `serde_json::Number::as_i64`: each variant is carried over one for one,
/// and a number that is no signed 64-bit integer has no form.
#[verifier::external_body]
fn value_to_json(v: &serde_json::Value) -> (r: Option<Json>)
    ensures
        (r matches Some(j) ==> value_model(*v) == Some(j@)),
        (r is None ==> value_model(*v) is None),
{
    match v {
        serde_json::Value::Null => Some(Json::Null),
        serde_json::Value::Bool(b) => Some(Json::Bool(*b)),
        serde_json::Value::Number(n) => n.as_i64().map(Json::Int),
        serde_json::Value::String(s) => Some(Json::Str(s.clone())),
        serde_json::Value::Array(a) => a.iter().map(value_to_json).collect::<Option<Vec<Json>>>().map(Json::Arr),
        serde_json::Value::Object(m) => m.iter().map(|p| value_to_json(p.1).map(|j| (p.0.clone(), j))).collect::<Option<Vec<(String, Json)>>>().map(Json::Obj),
    }
}

/// Relies on the public variants of `serde_json::Value`: builds, one variant
/// at a time, a value of the argument's form.  `serde_json`'s object keeps
/// the last occurrence of a repeated key, as `obj_view` does.
#[verifier::external_body]
fn json_to_value(j: &Json) -> (v: serde_json::Value)
    ensures
        value_model(v) == Some(j@),
{
    match j {
        Json::Null => serde_json::Value::Null,
        Json::Bool(b) => serde_json::Value::Bool(*b),
        Json::Int(i) => serde_json::Value::Number(serde_json::Number::from(*i)),
        Json::Str(s) => serde_json::Value::String(s.clone()),
        Json::Arr(a) => serde_json::Value::Array(a.iter().map(json_to_value).collect()),
        Json::Obj(o) => serde_json::Value::Object(o.iter().map(|p| (p.0.clone(), json_to_value(&p.1))).collect()),
    }
}

/// Relies on `serde_json::Value::to_string`: the JSON text depends on the
/// value alone, and values of one form print as one text.
#[verifier::external_body]
fn value_to_text(v: &serde_json::Value) -> (r: String)
    ensures
        (value_model(*v) matches Some(j) ==> r@ == text_of(j)),
{
    v.to_string()
}

/// Parses a JSON text.  `None` on a text that is not well-formed JSON, or
/// holds a number outside the signed 64-bit integers.
pub fn parse_json(s: &str) -> (r: Option<Json>)
    ensures
        (r matches Some(j) ==> json_of(s@) == Some(j@)),
        (r is None ==> json_of(s@) is None),
{
    match parse_value(s) {
        Some(v) => value_to_json(&v),
        None => None,
    }
}

/// Prints a JSON value as text.
pub fn to_text(j: &Json) -> (r: String)
    ensures
        r@ == text_of(j@),
{
    let v = json_to_value(j);
    value_to_text(&v)
}

} // verus!
