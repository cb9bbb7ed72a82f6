//! JSON documents: flat objects of text and number members, written out by
//! `serde_json`.

use crate::error::LogError;
use vstd::prelude::*;
use vstd::std_specs::convert::FromSpecImpl;

verus! {

/// The value of one member of a document.
#[derive(Clone, Debug, PartialEq, Eq)]
pub enum JsonValue {
    Text(String),
    Number(u32),
}

pub enum JsonValueView {
    Text(Seq<char>),
    Number(u32),
}

impl View for JsonValue {
    type V = JsonValueView;

    open spec fn view(&self) -> JsonValueView {
        match self {
            JsonValue::Text(text) => JsonValueView::Text(text@),
            JsonValue::Number(n) => JsonValueView::Number(*n),
        }
    }
}

/// One named member of a document.
#[derive(Clone, Debug, PartialEq, Eq)]
pub struct JsonMember {
    pub name: String,
    pub value: JsonValue,
}

pub struct JsonMemberView {
    pub name: Seq<char>,
    pub value: JsonValueView,
}

impl View for JsonMember {
    type V = JsonMemberView;

    open spec fn view(&self) -> JsonMemberView {
        JsonMemberView { name: self.name@, value: self.value@ }
    }
}

/// A JSON object, as the list of its members.
#[derive(Clone, Debug, PartialEq, Eq)]
pub struct JsonObject {
    pub members: Vec<JsonMember>,
}

impl View for JsonObject {
    type V = Seq<JsonMemberView>;

    open spec fn view(&self) -> Seq<JsonMemberView> {
        Seq::new(self.members@.len(), |i: int| self.members@[i]@)
    }
}

/// `serde_json::Error`, the reason a value was not written out.
#[verifier::external_type_specification]
#[verifier::external_body]
pub struct ExJsonError(serde_json::Error);

impl From<serde_json::Error> for LogError {
    fn from(err: serde_json::Error) -> (r: LogError) {
        LogError::SerializeFailed
    }
}

impl FromSpecImpl<serde_json::Error> for LogError {
    open spec fn obeys_from_spec() -> bool {
        true
    }

    open spec fn from_spec(err: serde_json::Error) -> LogError {
        LogError::SerializeFailed
    }
}

/// The bytes that `serde_json::to_vec` writes for the object made of the
/// given members, or nothing where it reports an error.
pub uninterp spec fn json_document(members: Seq<JsonMemberView>) -> Option<Seq<u8>>;

/// Collects the members into a `serde_json::Map`, each value through
/// `serde_json::Value::from`, and calls `serde_json::to_vec` on the object.
/// The contract claims that the outcome depends on the members alone.
#[verifier::external_body]
fn json_to_vec(object: &JsonObject) -> (r: Result<Vec<u8>, serde_json::Error>)
    ensures
        r is Ok <==> json_document(object@) is Some,
        r matches Ok(bytes) ==> json_document(object@) == Some(bytes@),
{
    let map: serde_json::Map<String, serde_json::Value> = object.members.iter().map(
        |member|
            (
                member.name.clone(),
                match &member.value {
                    JsonValue::Text(text) => serde_json::Value::from(text.as_str()),
                    JsonValue::Number(n) => serde_json::Value::from(*n),
                },
            ),
    ).collect();
    serde_json::to_vec(&serde_json::Value::Object(map))
}

impl JsonObject {
    /// Writes the object out as compact JSON.
    pub fn to_vec(&self) -> (r: Result<Vec<u8>, LogError>)
        ensures
            match json_document(self@) {
                Some(bytes) => r matches Ok(written) && written@ == bytes,
                None => r == Err::<Vec<u8>, LogError>(LogError::SerializeFailed),
            },
    {
        match json_to_vec(self) {
            Ok(bytes) => Ok(bytes),
            Err(err) => Err(LogError::from(err)),
        }
    }
}

} // verus!
