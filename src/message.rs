use vstd::prelude::*;

verus! {

/// A stargate message ready to be put into a transaction: the routing
/// identifier (the type URL of the payload) and the payload's binary encoding.
#[derive(Debug, Clone, PartialEq, Eq)]
pub struct OutgoingMessage {
    pub type_url: String,
    pub value: Vec<u8>,
}

impl View for OutgoingMessage {
    type V = (Seq<char>, Seq<u8>);

    open spec fn view(&self) -> (Seq<char>, Seq<u8>) {
        (self.type_url@, self.value@)
    }
}

/// Whether `m` is the message that routes the encoded payload `value` to `path`.
pub open spec fn routes(m: OutgoingMessage, path: Seq<char>, value: Seq<u8>) -> bool {
    m@ == (path, value)
}

/// Wraps the binary payload `req` with the routing identifier `path`. It does
/// no I/O and cannot fail: both parts reach the message unchanged.
pub fn create_stargate_msg(req: Vec<u8>, path: &str) -> (m: OutgoingMessage)
    ensures
        routes(m, path@, req@),
{
    OutgoingMessage { type_url: path.to_string(), value: req }
}

/// Building a message is deterministic: equal paths and equal payloads give
/// equal messages.
pub proof fn lemma_message_deterministic(
    m1: OutgoingMessage,
    m2: OutgoingMessage,
    path: Seq<char>,
    value: Seq<u8>,
)
    requires
        routes(m1, path, value),
        routes(m2, path, value),
    ensures
        m1@ == m2@,
        m1.type_url@ == m2.type_url@,
        m1.value@ == m2.value@,
{
}

} // verus!
