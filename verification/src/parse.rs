use vstd::prelude::*;
use crate::json::{JsonV, JsonValue};

verus! {

#[verifier::external_type_specification]
#[verifier::external_body]
pub struct ExValue(serde_json::Value);

/// The document a parsed JSON node stands for. A node is immutable, so
/// this is a function of the node alone; what it is on a given node is
/// never stated, only carried from the parser to the reader below.
pub uninterp spec fn value_model(v: serde_json::Value) -> JsonV;

/// Structural depth of a parsed JSON node; a child node sits strictly
/// below its parent.
pub uninterp spec fn value_height(v: serde_json::Value) -> nat;

/// What serde_json makes of a piece of text: the parsed document, or
/// nothing where the text is not JSON. A function of the text alone.
pub uninterp spec fn json_parse(s: Seq<char>) -> Option<JsonV>;

/// Relies on serde_json::from_str: parses text into a JSON document and
/// fails exactly on text that is not JSON.
#[verifier::external_body]
fn json_from_str(s: &str) -> (r: Option<serde_json::Value>)
    ensures
        match r {
            Some(v) => json_parse(s@) == Some(value_model(v)),
            None => json_parse(s@) is None,
        },
{
    serde_json::from_str(s).ok()
}

/// The six syntactic kinds of a JSON node.
pub enum JsonKind {
    Null,
    Bool,
    Num,
    Str,
    Arr,
    Obj,
}

/// Relies on matching the six variants of serde_json::Value, one arm each.
#[verifier::external_body]
fn value_kind(v: &serde_json::Value) -> (k: JsonKind)
    ensures
        k is Null <==> value_model(*v) is Null,
        k is Bool <==> value_model(*v) is Bool,
        k is Num <==> value_model(*v) is Num,
        k is Str <==> value_model(*v) is Str,
        k is Arr <==> value_model(*v) is Arr,
        k is Obj <==> value_model(*v) is Obj,
{
    match v {
        serde_json::Value::Null => JsonKind::Null,
        serde_json::Value::Bool(_) => JsonKind::Bool,
        serde_json::Value::Number(_) => JsonKind::Num,
        serde_json::Value::String(_) => JsonKind::Str,
        serde_json::Value::Array(_) => JsonKind::Arr,
        serde_json::Value::Object(_) => JsonKind::Obj,
    }
}

/// Relies on serde_json::Value::as_bool: the value of a boolean node.
#[verifier::external_body]
fn value_bool(v: &serde_json::Value) -> (r: bool)
    requires
        value_model(*v) is Bool,
    ensures
        value_model(*v) == JsonV::Bool(r),
{
    v.as_bool().unwrap_or(false)
}

/// Relies on serde_json::Value::as_str: the characters of a string node.
#[verifier::external_body]
fn value_string(v: &serde_json::Value) -> (r: String)
    requires
        value_model(*v) is Str,
    ensures
        value_model(*v) == JsonV::Str(r@),
{
    v.as_str().unwrap_or("").to_owned()
}

/// Relies on the Display of serde_json::Number: the decimal rendering of
/// a number node, a function of the number alone.
#[verifier::external_body]
fn value_number_text(v: &serde_json::Value) -> (r: String)
    requires
        value_model(*v) is Num,
    ensures
        value_model(*v) == JsonV::Num(r@),
{
    match v {
        serde_json::Value::Number(n) => n.to_string(),
        _ => String::new(),
    }
}

/// Relies on serde_json::Value::as_array: how many elements an array node has.
#[verifier::external_body]
fn value_array_len(v: &serde_json::Value) -> (r: usize)
    requires
        value_model(*v) is Arr,
    ensures
        r == value_model(*v)->Arr_0.len(),
{
    v.as_array().map(|a| a.len()).unwrap_or(0)
}

/// Relies on serde_json::Value::as_array and indexing: the element at `i`
/// of an array node, a child of the node.
#[verifier::external_body]
fn value_array_get<'a>(v: &'a serde_json::Value, i: usize) -> (r: &'a serde_json::Value)
    requires
        value_model(*v) is Arr,
        i < value_model(*v)->Arr_0.len(),
    ensures
        value_model(*r) == value_model(*v)->Arr_0[i as int],
        value_height(*r) < value_height(*v),
{
    &v.as_array().unwrap()[i]
}

/// Relies on serde_json::Value::as_object: how many entries an object node
/// has; keys are unique, so this is the entry count.
#[verifier::external_body]
fn value_object_len(v: &serde_json::Value) -> (r: usize)
    requires
        value_model(*v) is Obj,
    ensures
        r == value_model(*v)->Obj_0.len(),
{
    v.as_object().map(|m| m.len()).unwrap_or(0)
}

/// Relies on serde_json::Map iteration, whose order over an unchanged map
/// is fixed: the entry at `i` of an object node; its value is a child of
/// the node.
#[verifier::external_body]
fn value_object_entry<'a>(v: &'a serde_json::Value, i: usize) -> (r: (String, &'a serde_json::Value))
    requires
        value_model(*v) is Obj,
        i < value_model(*v)->Obj_0.len(),
    ensures
        r.0@ == value_model(*v)->Obj_0[i as int].0,
        value_model(*r.1) == value_model(*v)->Obj_0[i as int].1,
        value_height(*r.1) < value_height(*v),
{
    let (k, x) = v.as_object().unwrap().iter().nth(i).unwrap();
    (k.clone(), x)
}

/// Brings a parsed JSON node into the crate's own plain shape, node for
/// node.
fn value_to_json(v: &serde_json::Value) -> (r: JsonValue)
    ensures
        r.deep_view() == value_model(*v),
    decreases value_height(*v),
{
    match value_kind(v) {
        JsonKind::Null => JsonValue::Null,
        JsonKind::Bool => JsonValue::Bool(value_bool(v)),
        JsonKind::Num => JsonValue::Num(value_number_text(v)),
        JsonKind::Str => JsonValue::Str(value_string(v)),
        JsonKind::Arr => {
            let n = value_array_len(v);
            let mut out: Vec<JsonValue> = Vec::new();
            let mut i: usize = 0;
            while i < n
                invariant
                    0 <= i <= n,
                    value_model(*v) is Arr,
                    n == value_model(*v)->Arr_0.len(),
                    out@.len() == i,
                    forall|q: int|
                        0 <= q < i ==> (#[trigger] out@[q]).deep_view() == value_model(
                            *v,
                        )->Arr_0[q],
                decreases n - i,
            {
                let child = value_array_get(v, i);
                out.push(value_to_json(child));
                i += 1;
            }
            let r = JsonValue::Arr(out);
            proof {
                assert(r.deep_view()->Arr_0 =~= value_model(*v)->Arr_0);
            }
            r
        },
        JsonKind::Obj => {
            let n = value_object_len(v);
            let mut out: Vec<(String, JsonValue)> = Vec::new();
            let mut i: usize = 0;
            while i < n
                invariant
                    0 <= i <= n,
                    value_model(*v) is Obj,
                    n == value_model(*v)->Obj_0.len(),
                    out@.len() == i,
                    forall|q: int|
                        0 <= q < i ==> (#[trigger] out@[q]).0@ == value_model(*v)->Obj_0[q].0
                            && out@[q].1.deep_view() == value_model(*v)->Obj_0[q].1,
                decreases n - i,
            {
                let (key, child) = value_object_entry(v, i);
                let c = value_to_json(child);
                out.push((key, c));
                i += 1;
            }
            let r = JsonValue::Obj(out);
            proof {
                assert(r.deep_view()->Obj_0 =~= value_model(*v)->Obj_0);
            }
            r
        },
    }
}

/// Parses body text into the crate's own JSON shape: the one step of the
/// gateway that leans on an outside parser.
pub fn parse_json_text(s: &str) -> (r: Option<JsonValue>)
    ensures
        match r {
            Some(v) => json_parse(s@) == Some(v.deep_view()),
            None => json_parse(s@) is None,
        },
{
    match json_from_str(s) {
        Some(v) => Some(value_to_json(&v)),
        None => None,
    }
}

} // verus!
