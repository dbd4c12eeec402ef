use vstd::prelude::*;

verus! {

/// `serde_json::Value`: a JSON value. The library carries such values through
/// and never looks inside one.
#[verifier::external_type_specification]
#[verifier::external_body]
pub struct ExJsonValue(serde_json::Value);

/// The compact JSON text of the array that holds `items` in order.
pub uninterp spec fn json_array_text(items: Seq<serde_json::Value>) -> Seq<char>;

/// Calls `serde_json::Value::to_string` (its `Display`) on the array made of
/// `items`. The contract claims that the text is the one that serde_json
/// writes for that array, which depends on the items alone, and that an array
/// without items is written as `[]`.
#[verifier::external_body]
pub(crate) fn encode_array(items: Vec<serde_json::Value>) -> (text: String)
    ensures
        text@ == json_array_text(items@),
        items@.len() == 0 ==> text@ == "[]"@,
{
    serde_json::Value::Array(items).to_string()
}

} // verus!
