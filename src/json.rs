//! The JSON documents that tool arguments are made of.
use vstd::prelude::*;

verus! {

#[verifier::external_type_specification]
#[verifier::external_body]
pub struct ExValue(serde_json::Value);

/// Whether serde_json reads `text` as one complete JSON document.
pub uninterp spec fn json_accepts(text: Seq<char>) -> bool;

/// Relies on serde_json::from_str: it yields a value exactly when the text is
/// a JSON document that serde_json accepts.
#[verifier::external_body]
pub(crate) fn parse_json(text: &str) -> (r: Option<serde_json::Value>)
    ensures
        r.is_some() == json_accepts(text@),
{
    serde_json::from_str::<serde_json::Value>(text).ok()
}

/// Relies on serde_json's derived `Clone` for `Value`: a deep copy, equal to the value it copies.
pub assume_specification[ <serde_json::Value as Clone>::clone ](v: &serde_json::Value) -> (r:
    serde_json::Value)
    ensures
        r == *v,
;

/// Relies on serde_json::Value::Object and serde_json::Map::new: an object without members.
#[verifier::external_body]
pub(crate) fn empty_object() -> (r: serde_json::Value) {
    serde_json::Value::Object(serde_json::Map::new())
}

} // verus!
