use vstd::prelude::*;

use crate::error::BridgeError;

verus! {

/// The outer wire form of a stargate query envelope addressed to `path` and
/// carrying the binary request `data`.
pub uninterp spec fn stargate_query_json(path: Seq<char>, data: Seq<u8>) -> Seq<u8>;

/// Relies on serde_json_wasm::to_vec, applied to cosmwasm_std's
/// `QueryRequest::Stargate { path, data }`: a string and a base64 string in a
/// struct variant, which that serializer always writes; the bytes depend on
/// the path and the data alone.
#[verifier::external_body]
fn serialize_stargate_query(path: &str, data: Vec<u8>) -> (r: Result<Vec<u8>, String>)
    ensures
        r is Ok,
        r->Ok_0@ == stargate_query_json(path@, data@),
{
    let request = cosmwasm_std::QueryRequest::<cosmwasm_std::Empty>::Stargate {
        path: path.to_string(),
        data: cosmwasm_std::Binary::from(data),
    };
    serde_json_wasm::to_vec(&request).map_err(|e| e.to_string())
}

/// Wraps `(path, data)` into a stargate query envelope and serializes it.
/// The path and the data reach the envelope unchanged, and serializing the
/// envelope always succeeds; a serializer failure would surface as a
/// serialization error carrying its message.
pub fn encode_query_request(path: &str, data: Vec<u8>) -> (r: Result<Vec<u8>, BridgeError>)
    ensures
        r is Ok,
        r->Ok_0@ == stargate_query_json(path@, data@),
{
    match serialize_stargate_query(path, data) {
        Ok(bytes) => Ok(bytes),
        Err(cause) => Err(BridgeError::Serialization(cause)),
    }
}

} // verus!
