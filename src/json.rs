use vstd::prelude::*;
use crate::error::CoreError;

verus! {

#[verifier::external_type_specification]
#[verifier::external_body]
pub struct ExValue(serde_json::Value);

#[verifier::external_type_specification]
#[verifier::external_body]
pub struct ExJsonError(serde_json::Error);

/// Whether serde_json's parser accepts bytes as one JSON document.
pub uninterp spec fn is_json(b: Seq<u8>) -> bool;

/// The value that serde_json's parser decodes from bytes it accepts.
pub uninterp spec fn json_value_of(b: Seq<u8>) -> serde_json::Value;

/// The bytes that serde_json writes for a value.
pub uninterp spec fn json_bytes_of(v: serde_json::Value) -> Seq<u8>;

/// Relies on serde_json::from_slice into a `Value`: whether it succeeds, and
/// the value it decodes, depend on the bytes alone.
#[verifier::external_body]
fn parse_json(b: &[u8]) -> (r: Result<serde_json::Value, serde_json::Error>)
    ensures
        r is Ok <==> is_json(b@),
        r matches Ok(v) ==> v == json_value_of(b@),
{
    serde_json::from_slice(b)
}

/// Relies on serde_json::to_vec: the JSON text of a value, which depends on
/// the value alone. It fails only for a `Serialize` impl that fails or a map
/// with non-string keys, and `Value` has neither, so it succeeds.
#[verifier::external_body]
pub(crate) fn encode_json(v: &serde_json::Value) -> (r: Result<Vec<u8>, serde_json::Error>)
    ensures
        r is Ok,
        r is Ok ==> r->Ok_0@ == json_bytes_of(*v),
{
    serde_json::to_vec(v)
}

/// Decodes a response body as a structured value.
pub fn decode_body(body: &[u8]) -> (r: Result<serde_json::Value, CoreError>)
    ensures
        r is Ok <==> is_json(body@),
        r matches Ok(v) ==> v == json_value_of(body@),
        r is Err ==> r == Err::<serde_json::Value, CoreError>(CoreError::Decode),
{
    match parse_json(body) {
        Ok(v) => Ok(v),
        Err(_) => Err(CoreError::Decode),
    }
}

} // verus!
