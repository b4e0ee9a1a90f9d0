use vstd::prelude::*;

verus! {

/// An in-memory JSON document with every scalar held as a plain value.
///
/// A number is held as its decimal text (the shortest representation that
/// round-trips the source value), so no precision is lost and no
/// floating-point value has to be carried through the decoding logic.
#[derive(Debug)]
pub enum JsonValue {
    Null,
    Bool(bool),
    Num(String),
    Str(String),
    Arr(Vec<JsonValue>),
    Obj(Vec<(String, JsonValue)>),
}

pub open spec fn obj_lookup_from(
    fields: Seq<(String, JsonValue)>,
    key: Seq<char>,
    i: int,
) -> Option<JsonValue>
    decreases fields.len() - i,
{
    if i < 0 || i >= fields.len() {
        None
    } else if fields[i].0@ == key {
        Some(fields[i].1)
    } else {
        obj_lookup_from(fields, key, i + 1)
    }
}

/// The value of the first field named `key` in an object's field list,
/// `None` where no field has that name.
pub open spec fn obj_lookup(fields: Seq<(String, JsonValue)>, key: Seq<char>) -> Option<
    JsonValue,
> {
    obj_lookup_from(fields, key, 0)
}

/// Finds the first field named `key` in an object's field list.
pub fn get_field<'a>(fields: &'a Vec<(String, JsonValue)>, key: &str) -> (r: Option<
    &'a JsonValue,
>)
    ensures
        match r {
            Some(v) => obj_lookup(fields@, key@) == Some(*v),
            None => obj_lookup(fields@, key@) is None,
        },
{
    let k = key.to_owned();
    let mut i: usize = 0;
    while i < fields.len()
        invariant
            i <= fields@.len(),
            k@ == key@,
            obj_lookup(fields@, key@) == obj_lookup_from(fields@, key@, i as int),
        decreases fields@.len() - i,
    {
        if fields[i].0 == k {
            return Some(&fields[i].1);
        }
        i = i + 1;
    }
    None
}

/// Carries `serde_json::Value` through the signatures of the trusted items
/// below.
#[verifier::external_type_specification]
#[verifier::external_body]
pub struct ExValue(serde_json::Value);

/// Relies on the shape of `serde_json::Value`: rebuilds the parsed document
/// with each variant mapped across one for one; a number becomes its decimal
/// text through `serde_json::Number`'s `Display`, the shortest representation
/// that round-trips the stored value.
#[verifier::external_body]
fn value_to_model(v: serde_json::Value) -> JsonValue {
    match v {
        serde_json::Value::Null => JsonValue::Null,
        serde_json::Value::Bool(b) => JsonValue::Bool(b),
        serde_json::Value::Number(n) => JsonValue::Num(n.to_string()),
        serde_json::Value::String(s) => JsonValue::Str(s),
        serde_json::Value::Array(a) => JsonValue::Arr(a.into_iter().map(value_to_model).collect()),
        serde_json::Value::Object(o) => JsonValue::Obj(
            o.into_iter().map(|f| (f.0, value_to_model(f.1))).collect(),
        ),
    }
}

/// Names the document model that parsing a text as JSON yields, `None` where
/// the text is not valid JSON; what a text parses to depends on the text
/// alone.
pub uninterp spec fn json_model_of(s: Seq<char>) -> Option<JsonValue>;

/// Relies on `serde_json::from_str::<serde_json::Value>`: whether a text
/// parses, and the document it parses to, are pure functions of the text.
#[verifier::external_body]
pub(crate) fn parse_json(s: &str) -> (r: Option<JsonValue>)
    ensures
        r == json_model_of(s@),
{
    match serde_json::from_str::<serde_json::Value>(s) {
        Ok(v) => Some(value_to_model(v)),
        Err(_) => None,
    }
}

} // verus!
