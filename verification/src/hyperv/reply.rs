//! Fields of the JSON values that scripts reply with.

use vstd::prelude::*;

verus! {

#[verifier::external_type_specification]
#[verifier::external_body]
pub struct ExValue(serde_json::Value);

/// The fields of a JSON object that hold a truth value. Any other JSON value has none.
pub uninterp spec fn truth_fields(value: serde_json::Value) -> Map<Seq<char>, bool>;

/// `Value::get` with a string key, then `Value::as_bool`: the truth value of that field, if the
/// value is an object, has the field, and the field holds a truth value.
#[verifier::external_body]
pub(crate) fn truth_field(value: &serde_json::Value, key: &str) -> (found: Option<bool>)
    ensures
        match found {
            Some(truth) => truth_fields(*value).contains_pair(key@, truth),
            None => !truth_fields(*value).dom().contains(key@),
        },
{
    value.get(key).and_then(serde_json::Value::as_bool)
}

/// The field is present and true.
pub open spec fn confirmed(value: serde_json::Value, key: Seq<char>) -> bool {
    truth_fields(value).contains_pair(key, true)
}

/// Whether the field is present and true.
pub fn confirms(value: &serde_json::Value, key: &str) -> (yes: bool)
    ensures
        yes == confirmed(*value, key@),
{
    match truth_field(value, key) {
        Some(truth) => truth,
        None => false,
    }
}

} // verus!
