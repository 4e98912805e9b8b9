use vstd::prelude::*;

use crate::envelope::encode_query_request;
use crate::error::BridgeError;

verus! {

/// What a querier hands back for one raw query: a system-level failure, a
/// failure reported by the remote operation, or the raw reply bytes.
#[derive(Debug, Clone, PartialEq, Eq)]
pub enum QuerierReply {
    SystemFailure(String),
    ContractFailure(String),
    Success(Vec<u8>),
}

/// Sorts a querier reply into the bridge's failure layers: a system failure
/// becomes a transport error, a remote failure a remote error, and a success
/// hands its bytes on for decoding.
pub fn classify_reply(reply: QuerierReply) -> (r: Result<Vec<u8>, BridgeError>)
    ensures
        r == classified(reply),
{
    match reply {
        QuerierReply::SystemFailure(m) => Err(BridgeError::Transport(m)),
        QuerierReply::ContractFailure(m) => Err(BridgeError::Remote(m)),
        QuerierReply::Success(bytes) => Ok(bytes),
    }
}

pub open spec fn classified(reply: QuerierReply) -> Result<Vec<u8>, BridgeError> {
    match reply {
        QuerierReply::SystemFailure(m) => Err(BridgeError::Transport(m)),
        QuerierReply::ContractFailure(m) => Err(BridgeError::Remote(m)),
        QuerierReply::Success(bytes) => Ok(bytes),
    }
}


/// The host's query capability: delivers a serialized query envelope and
/// hands back what came of it. The bridge knows nothing of how it answers.
pub trait Querier {
    fn raw_query(&self, bin_request: &[u8]) -> QuerierReply;
}

/// The result of a query whose querier answered `reply`, where `decoded` is
/// what the response decoder made of the reply bytes (consulted on success only).
pub open spec fn query_outcome<Res>(reply: QuerierReply, decoded: Result<Res, String>) -> Result<
    Res,
    BridgeError,
> {
    match reply {
        QuerierReply::SystemFailure(m) => Err(BridgeError::Transport(m)),
        QuerierReply::ContractFailure(m) => Err(BridgeError::Remote(m)),
        QuerierReply::Success(_) => match decoded {
            Ok(v) => Ok(v),
            Err(e) => Err(BridgeError::Decode(e)),
        },
    }
}

/// Whether `r` is what the bridge returns when the querier answered `reply`
/// and the reply bytes, if any, were handed to `decode`.
pub open spec fn answers<Res, F: Fn(Vec<u8>) -> Result<Res, String>>(
    reply: QuerierReply,
    decode: F,
    r: Result<Res, BridgeError>,
) -> bool {
    match reply {
        QuerierReply::Success(bytes) => exists|d: Result<Res, String>|
            #[trigger] call_ensures(decode, (bytes,), d) && r == query_outcome(reply, d),
        _ => r == query_outcome::<Res>(reply, Err(arbitrary())),
    }
}

/// Turns a querier reply into the typed response: system and remote failures
/// pass through as transport and remote errors, and the reply bytes of a
/// success go to `decode`, whose failure becomes a decode error.
pub fn finish_query<Res, F: Fn(Vec<u8>) -> Result<Res, String>>(reply: QuerierReply, decode: F) -> (r:
    Result<Res, BridgeError>)
    requires
        forall|b: Vec<u8>| decode.requires((b,)),
    ensures
        answers(reply, decode, r),
{
    match classify_reply(reply) {
        Err(e) => Err(e),
        Ok(bytes) => {
            let ghost b = bytes;
            let decoded = decode(bytes);
            assert(call_ensures(decode, (b,), decoded));
            match decoded {
                Ok(v) => Ok(v),
                Err(cause) => Err(BridgeError::Decode(cause)),
            }
        },
    }
}

/// Sends the binary request `req` to the operation at `path` through
/// `querier` and decodes the reply with `decode`. The envelope always
/// serializes, so the querier is always asked, and the result is what
/// `finish_query` makes of the reply it gave.
pub fn make_stargate_query<Q: Querier, Res, F: Fn(Vec<u8>) -> Result<Res, String>>(
    querier: &Q,
    req: Vec<u8>,
    path: &str,
    decode: F,
) -> (r: Result<Res, BridgeError>)
    requires
        forall|b: Vec<u8>| decode.requires((b,)),
    ensures
        exists|reply: QuerierReply| #[trigger] answers(reply, decode, r),
        !(r is Err && r->Err_0 is Serialization),
{
    let raw = match encode_query_request(path, req) {
        Ok(raw) => raw,
        Err(e) => return Err(e),
    };
    let reply = querier.raw_query(raw.as_slice());
    let ghost g = reply;
    let r = finish_query(reply, decode);
    assert(answers(g, decode, r));
    proof {
        lemma_no_serialization_error_after_call(g, decode, r);
    }
    r
}

/// Round trip: when the querier answers with bytes that the decoder can only
/// turn into `response` (the bytes encode a well-formed response), the bridge
/// returns exactly `response`.
pub proof fn lemma_round_trip<Res, F: Fn(Vec<u8>) -> Result<Res, String>>(
    bytes: Vec<u8>,
    decode: F,
    response: Res,
    r: Result<Res, BridgeError>,
)
    requires
        forall|d: Result<Res, String>| #[trigger]
            call_ensures(decode, (bytes,), d) ==> d == Ok::<Res, String>(response),
        answers(QuerierReply::Success(bytes), decode, r),
    ensures
        r == Ok::<Res, BridgeError>(response),
{
}

/// Layer isolation: a system failure yields exactly a transport error with its
/// message, a remote failure exactly a remote error with its message, and
/// reply bytes that the decoder rejects exactly a decode error.
pub proof fn lemma_layer_isolation<Res, F: Fn(Vec<u8>) -> Result<Res, String>>(
    reply: QuerierReply,
    decode: F,
    r: Result<Res, BridgeError>,
)
    requires
        answers(reply, decode, r),
    ensures
        reply is SystemFailure ==> r == Err::<Res, BridgeError>(
            BridgeError::Transport(reply->SystemFailure_0),
        ),
        reply is ContractFailure ==> r == Err::<Res, BridgeError>(
            BridgeError::Remote(reply->ContractFailure_0),
        ),
        reply is Success && (forall|d: Result<Res, String>| #[trigger]
            call_ensures(decode, (reply->Success_0,), d) ==> d is Err) ==> r is Err
            && r->Err_0 is Decode,
{
}

/// A serialization error never comes out of a querier's reply: whatever the
/// querier answers, the bridge's result is a response or a transport, remote
/// or decode error.
pub proof fn lemma_no_serialization_error_after_call<Res, F: Fn(Vec<u8>) -> Result<Res, String>>(
    reply: QuerierReply,
    decode: F,
    r: Result<Res, BridgeError>,
)
    requires
        answers(reply, decode, r),
    ensures
        !(r is Err && r->Err_0 is Serialization),
{
}

} // verus!
