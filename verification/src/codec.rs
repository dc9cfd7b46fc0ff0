//! The decoder collaborator: JSON text to and from resource records.
//!
//! All JSON reading and writing is delegated to serde_json behind the
//! trusted items below. What each call returns is given a name by an
//! uninterpreted spec function of the text alone, and everything
//! downstream is verified against those names.

use vstd::prelude::*;

verus! {

/// serde_json's parsed value type, opaque to the verifier; it only
/// carries parsed array elements between the trusted calls below.
#[verifier::external_type_specification]
#[verifier::external_body]
pub struct ExValue(serde_json::Value);

/// The id of the record a JSON text denotes: `Some(id)` exactly when
/// the text parses as a JSON object whose "id" member is a string with
/// value `id`, `None` otherwise. A pure function of the text.
pub uninterp spec fn json_id_of(s: Seq<char>) -> Option<Seq<char>>;

/// The elements of the JSON array a text denotes, each re-serialized
/// to its own JSON text: `Some` exactly when the text parses as a JSON
/// array. A pure function of the text.
pub uninterp spec fn json_items_of(s: Seq<char>) -> Option<Seq<Seq<char>>>;

/// The JSON text a parsed value serializes back to. A pure function of
/// the value.
pub uninterp spec fn value_text(v: serde_json::Value) -> Seq<char>;

/// Relies on serde_json::from_str::<serde_json::Value> and on
/// serde_json::Value::get and Value::as_str: parses the text and reads
/// the string under the "id" key of the resulting object, if there is
/// one. The result depends on the text alone.
#[verifier::external_body]
pub fn extract_id(text: &str) -> (r: Option<String>)
    ensures
        r is Some <==> json_id_of(text@) is Some,
        r matches Some(id) ==> json_id_of(text@) == Some(id@),
{
    let v: serde_json::Value = match serde_json::from_str(text) {
        Ok(v) => v,
        Err(_) => return None,
    };
    match v.get("id") {
        Some(f) => match f.as_str() {
            Some(s) => Some(s.to_string()),
            None => None,
        },
        None => None,
    }
}

/// Relies on serde_json::from_str::<Vec<serde_json::Value>>: succeeds
/// exactly when the text is a JSON array, and yields the elements in
/// order. The result depends on the text alone.
#[verifier::external_body]
pub fn parse_array(text: &str) -> (r: Option<Vec<serde_json::Value>>)
    ensures
        r is Some <==> json_items_of(text@) is Some,
        r matches Some(vs) ==> json_items_of(text@) matches Some(items)
            && items.len() == vs@.len()
            && (forall|i: int| 0 <= i < vs@.len() ==> items[i] == value_text(vs@[i])),
{
    serde_json::from_str(text).ok()
}

/// Relies on serde_json::to_string: serializes a parsed value back to
/// JSON text. Serializing a serde_json::Value cannot fail (its map
/// keys are strings), so the error arm is unreachable and answered
/// with an empty string.
#[verifier::external_body]
pub fn value_to_text(v: &serde_json::Value) -> (r: String)
    ensures
        r@ == value_text(*v),
{
    match serde_json::to_string(v) {
        Ok(s) => s,
        Err(_) => String::new(),
    }
}

} // verus!
