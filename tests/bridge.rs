use std::cell::RefCell;

use prost::bytes::{Buf, BufMut};
use prost::encoding::{skip_field, uint64, DecodeContext, WireType};
use prost::{DecodeError, Message};

use stargate_bridge::envelope::encode_query_request;
use stargate_bridge::error::BridgeError;
use stargate_bridge::query::{classify_reply, finish_query, make_stargate_query, Querier, QuerierReply};

/// A protobuf message with a single `uint64` field numbered 1.
#[derive(Clone, Debug, Default, PartialEq)]
struct Nonce {
    nonce: u64,
}

impl Message for Nonce {
    fn encode_raw<B>(&self, buf: &mut B)
    where
        B: BufMut,
    {
        if self.nonce != 0 {
            uint64::encode(1, &self.nonce, buf);
        }
    }

    fn merge_field<B>(
        &mut self,
        tag: u32,
        wire_type: WireType,
        buf: &mut B,
        ctx: DecodeContext,
    ) -> Result<(), DecodeError>
    where
        B: Buf,
    {
        if tag == 1 {
            uint64::merge(wire_type, &mut self.nonce, buf, ctx)
        } else {
            skip_field(wire_type, tag, buf, ctx)
        }
    }

    fn encoded_len(&self) -> usize {
        if self.nonce != 0 {
            uint64::encoded_len(1, &self.nonce)
        } else {
            0
        }
    }

    fn clear(&mut self) {
        self.nonce = 0;
    }
}

type Ping = Nonce;
type Pong = Nonce;

/// A querier that answers every query with the same reply and records what it was sent.
struct MockQuerier {
    reply: QuerierReply,
    seen: RefCell<Vec<Vec<u8>>>,
}

impl MockQuerier {
    fn new(reply: QuerierReply) -> Self {
        MockQuerier { reply, seen: RefCell::new(Vec::new()) }
    }
}

impl Querier for MockQuerier {
    fn raw_query(&self, bin_request: &[u8]) -> QuerierReply {
        self.seen.borrow_mut().push(bin_request.to_vec());
        self.reply.clone()
    }
}

fn decode_pong(bytes: Vec<u8>) -> Result<Pong, String> {
    Pong::decode(bytes.as_slice()).map_err(|e| e.to_string())
}

fn ping_query(querier: &MockQuerier) -> Result<Pong, BridgeError> {
    let ping = Ping { nonce: 42 };
    make_stargate_query(querier, ping.encode_to_vec(), "/mod.Ping", decode_pong)
}

#[test]
fn ping_returns_pong() {
    let querier = MockQuerier::new(QuerierReply::Success(Pong { nonce: 42 }.encode_to_vec()));
    assert_eq!(ping_query(&querier), Ok(Pong { nonce: 42 }));
    assert_eq!(querier.seen.borrow().len(), 1);
}

#[test]
fn system_failure_is_transport_error() {
    let querier = MockQuerier::new(QuerierReply::SystemFailure("connection refused".to_string()));
    assert_eq!(ping_query(&querier), Err(BridgeError::Transport("connection refused".to_string())));
}

#[test]
fn contract_failure_is_remote_error() {
    let querier = MockQuerier::new(QuerierReply::ContractFailure("insufficient funds".to_string()));
    assert_eq!(ping_query(&querier), Err(BridgeError::Remote("insufficient funds".to_string())));
}

#[test]
fn malformed_reply_is_decode_error() {
    // a varint field whose bytes end before the value does
    let querier = MockQuerier::new(QuerierReply::Success(vec![0x08, 0xff]));
    let r = ping_query(&querier);
    assert!(matches!(r, Err(BridgeError::Decode(_))), "{:?}", r);
}

#[test]
fn round_trip_of_several_responses() {
    for nonce in [0u64, 1, 300, u64::MAX] {
        let querier = MockQuerier::new(QuerierReply::Success(Pong { nonce }.encode_to_vec()));
        assert_eq!(ping_query(&querier), Ok(Pong { nonce }));
    }
}

#[test]
fn query_envelope_carries_path_and_request() {
    let querier = MockQuerier::new(QuerierReply::Success(Vec::new()));
    assert_eq!(ping_query(&querier), Ok(Pong { nonce: 0 }));
    let expected = br#"{"stargate":{"path":"/mod.Ping","data":"CCo="}}"#.to_vec();
    assert_eq!(querier.seen.borrow().clone(), vec![expected.clone()]);
    assert_eq!(encode_query_request("/mod.Ping", Ping { nonce: 42 }.encode_to_vec()), Ok(expected));
}

#[test]
fn classify_reply_keeps_layers_apart() {
    assert_eq!(
        classify_reply(QuerierReply::SystemFailure("down".to_string())),
        Err(BridgeError::Transport("down".to_string()))
    );
    assert_eq!(
        classify_reply(QuerierReply::ContractFailure("no".to_string())),
        Err(BridgeError::Remote("no".to_string()))
    );
    assert_eq!(classify_reply(QuerierReply::Success(vec![1, 2, 3])), Ok(vec![1, 2, 3]));
}

#[test]
fn finish_query_passes_decoder_failure_on() {
    let r: Result<u8, BridgeError> =
        finish_query(QuerierReply::Success(vec![9]), |_b: Vec<u8>| Err("bad schema".to_string()));
    assert_eq!(r, Err(BridgeError::Decode("bad schema".to_string())));
    assert_eq!(r.unwrap_err().message(), "bad schema");
}

#[test]
fn error_message_is_verbatim() {
    assert_eq!(BridgeError::Serialization("a".to_string()).message(), "a");
    assert_eq!(BridgeError::Transport("b".to_string()).message(), "b");
    assert_eq!(BridgeError::Remote("c".to_string()).message(), "c");
    assert_eq!(BridgeError::Decode("d".to_string()).message(), "d");
}

#[test]
fn envelope_serializes_for_any_path() {
    for path in ["", "/a\"b\\c", "/mod.Ünïcode\n\u{1}", "/mod.Ping"] {
        let r = encode_query_request(path, vec![0, 255, 7]);
        assert!(r.is_ok(), "{:?}", r);
    }
    let querier = MockQuerier::new(QuerierReply::Success(Vec::new()));
    let r = make_stargate_query(&querier, Vec::new(), "\"", decode_pong);
    assert_eq!(r, Ok(Pong { nonce: 0 }));
    assert_eq!(querier.seen.borrow().len(), 1);
}
