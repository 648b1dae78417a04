//! The JSON text of a message body.

use vstd::prelude::*;

verus! {

/// The compact JSON text of the object `{"message": message}`, as
/// `serde_json` writes it.
pub uninterp spec fn json_message(message: Seq<char>) -> Seq<char>;

/// Writes the object with the one member `message` as compact JSON, by the
/// `Display` of `serde_json::Value`. The contract only names the text: it is
/// a function of the message.
#[verifier::external_body]
pub(crate) fn message_body(message: &str) -> (body: String)
    ensures
        body@ == json_message(message@),
{
    let mut object = serde_json::Map::new();
    object.insert("message".to_owned(), serde_json::Value::from(message));
    serde_json::Value::Object(object).to_string()
}

} // verus!
