//! Messages of the dex module: one fixed routing path per operation, each
//! paired with the binary encoding of its protobuf payload.
use vstd::prelude::*;

use crate::message::{create_stargate_msg, routes, OutgoingMessage};

verus! {

pub const DEPOSIT_MSG_PATH: &'static str = "/neutron.dex.MsgDeposit";

pub const WITHDRAWAL_MSG_PATH: &'static str = "/neutron.dex.MsgWithdrawal";

pub const PLACE_LIMIT_ORDER_MSG_PATH: &'static str = "/neutron.dex.MsgPlaceLimitOrder";

pub const WITHDRAW_FILLED_LIMIT_ORDER_MSG_PATH: &'static str = "/neutron.dex.MsgWithdrawFilledLimitOrder";

pub const CANCEL_LIMIT_ORDER_MSG_PATH: &'static str = "/neutron.dex.MsgCancelLimitOrder";

pub const MULTI_HOP_SWAP_MSG_PATH: &'static str = "/neutron.dex.MsgMultiHopSwap";

/// Provides liquidity to a trading pair; `req` is an encoded `MsgDeposit`.
pub fn msg_deposit(req: Vec<u8>) -> (m: OutgoingMessage)
    ensures
        routes(m, DEPOSIT_MSG_PATH@, req@),
{
    create_stargate_msg(req, DEPOSIT_MSG_PATH)
}

/// Redeems pool shares for the holder's portion of a pool; `req` is an
/// encoded `MsgWithdrawal`.
pub fn msg_withdrawal(req: Vec<u8>) -> (m: OutgoingMessage)
    ensures
        routes(m, WITHDRAWAL_MSG_PATH@, req@),
{
    create_stargate_msg(req, WITHDRAWAL_MSG_PATH)
}

/// Places a limit order; `req` is an encoded `MsgPlaceLimitOrder`.
pub fn msg_place_limit_order(req: Vec<u8>) -> (m: OutgoingMessage)
    ensures
        routes(m, PLACE_LIMIT_ORDER_MSG_PATH@, req@),
{
    create_stargate_msg(req, PLACE_LIMIT_ORDER_MSG_PATH)
}

/// Withdraws the filled part of a limit order; `req` is an encoded
/// `MsgWithdrawFilledLimitOrder`.
pub fn msg_withdraw_filled_limit_order(req: Vec<u8>) -> (m: OutgoingMessage)
    ensures
        routes(m, WITHDRAW_FILLED_LIMIT_ORDER_MSG_PATH@, req@),
{
    create_stargate_msg(req, WITHDRAW_FILLED_LIMIT_ORDER_MSG_PATH)
}

/// Cancels a limit order that is not yet completely filled; `req` is an
/// encoded `MsgCancelLimitOrder`.
pub fn msg_cancel_limit_order(req: Vec<u8>) -> (m: OutgoingMessage)
    ensures
        routes(m, CANCEL_LIMIT_ORDER_MSG_PATH@, req@),
{
    create_stargate_msg(req, CANCEL_LIMIT_ORDER_MSG_PATH)
}

/// Swaps through a series of pools; `req` is an encoded `MsgMultiHopSwap`.
pub fn msg_multi_hop_swap(req: Vec<u8>) -> (m: OutgoingMessage)
    ensures
        routes(m, MULTI_HOP_SWAP_MSG_PATH@, req@),
{
    create_stargate_msg(req, MULTI_HOP_SWAP_MSG_PATH)
}

} // verus!
