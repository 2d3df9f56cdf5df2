//! A plain model of JSON documents, as far as this crate reads them: tool
//! input schemas and tool-call arguments travel through it. The hosting
//! application converts between this model and its own JSON representation
//! at the edge.

use vstd::prelude::*;

verus! {

/// A JSON document. Numbers are held as integers: the schemas and argument
/// maps this crate handles carry no fractional values, and a host that meets
/// one can degrade it to its textual form.
#[derive(Debug, PartialEq)]
pub enum JsonValue {
    Null,
    Bool(bool),
    Int(i64),
    Str(String),
    Array(Vec<JsonValue>),
    Object(Vec<(String, JsonValue)>),
}

impl JsonValue {
    /// A null document or an object with no members: a schema in this shape
    /// declares nothing and is replaced by the canonical empty schema.
    pub open spec fn is_declared_empty(&self) -> bool {
        ||| *self is Null
        ||| (self matches JsonValue::Object(entries) && entries@.len() == 0)
    }
}

/// The canonical empty-object schema, `{"type":"object","properties":[]}`:
/// what a tool that advertises no real schema presents to schema-consuming
/// callers.
pub open spec fn is_canonical_empty_schema(v: JsonValue) -> bool {
    &&& v matches JsonValue::Object(entries)
    &&& entries@.len() == 2
    &&& entries@[0].0@ == "type"@
    &&& entries@[0].1 matches JsonValue::Str(s) && s@ == "object"@
    &&& entries@[1].0@ == "properties"@
    &&& entries@[1].1 matches JsonValue::Array(a) && a@.len() == 0
}

/// Builds the canonical empty-object schema.
pub fn canonical_empty_schema() -> (r: JsonValue)
    ensures
        is_canonical_empty_schema(r),
        r.is_declared_empty() == false,
{
    let mut entries: Vec<(String, JsonValue)> = Vec::new();
    entries.push(("type".to_owned(), JsonValue::Str("object".to_owned())));
    entries.push(("properties".to_owned(), JsonValue::Array(Vec::new())));
    JsonValue::Object(entries)
}

/// The schema a tool presents: a null or empty-object declaration becomes
/// the canonical empty schema, and any other schema passes through
/// unchanged.
pub fn effective_schema(schema: JsonValue) -> (r: JsonValue)
    ensures
        schema.is_declared_empty() ==> is_canonical_empty_schema(r),
        !schema.is_declared_empty() ==> r == schema,
{
    match schema {
        JsonValue::Null => canonical_empty_schema(),
        JsonValue::Object(entries) => {
            if entries.len() == 0 {
                canonical_empty_schema()
            } else {
                JsonValue::Object(entries)
            }
        },
        other => other,
    }
}

} // verus!
