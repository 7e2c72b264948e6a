//! The reply correlator: routes the host's report on a previously queued
//! sub-operation back to the continuation registered under its tag.
//!
//! Order placement is registered for success replies only, so a failed
//! placement never reaches this path: the host simply does not call back,
//! and failures stay unobserved unless a failure registration is added.
use vstd::prelude::*;
use vstd::string::*;

use crate::digits::dec_digits;
use crate::errors::ContractError;
use crate::response::{empty_response, Response};
use crate::types::ReplyMsg;
use crate::PLACE_ORDER_REPLY_ID;

verus! {

/// The order ids a place-orders result payload reports; a function of the
/// payload bytes alone.
pub uninterp spec fn placed_order_ids(data: Seq<u8>) -> Seq<u64>;

/// Whether a place-orders result payload parses; a function of the
/// payload bytes alone.
pub uninterp spec fn parses_place_orders(data: Seq<u8>) -> bool;

/// Relies on protobuf's Message::parse_from_bytes for
/// sei_cosmwasm::MsgPlaceOrdersResponse: the parse depends on the bytes
/// alone, succeeds or fails as a function of them, and on success yields
/// the response's order ids.
#[verifier::external_body]
fn parse_place_orders_response(data: &Vec<u8>) -> (r: Result<Vec<u64>, ()>)
    ensures
        r is Ok <==> parses_place_orders(data@),
        r matches Ok(ids) ==> ids@ == placed_order_ids(data@),
{
    let parsed = <sei_cosmwasm::MsgPlaceOrdersResponse as protobuf::Message>::parse_from_bytes(
        data.as_slice(),
    );
    match parsed {
        Ok(resp) => Ok(resp.order_ids),
        Err(_) => Err(()),
    }
}

/// What the correlator reports after a successful placement: no new
/// messages, one attribute counting the orders the host placed.
pub open spec fn placement_reply_response(resp: Response, ids: Seq<u64>) -> bool {
    &&& resp.messages@.len() == 0
    &&& resp.data is None
    &&& resp.attributes@.len() == 1
    &&& resp.attributes@[0].key@ == "placed_orders"@
    &&& resp.attributes@[0].value@ == dec_digits(ids.len())
}

/// Folds a placement result into the contract's outgoing response; exact
/// for every value the parse could hand back.
pub fn placement_reply(order_ids: &Vec<u64>) -> (resp: Response)
    ensures
        placement_reply_response(resp, order_ids@),
{
    let count = crate::digits::digits_string(order_ids.len() as u128);
    Response::new().add_attribute(String::from_str("placed_orders"), count)
}

/// The reply correlator. A tag other than the place-order tag was never
/// registered by any builder: reporting it is an internal-consistency
/// violation, `UnknownReplyTag`.
pub fn on_reply(msg: ReplyMsg) -> (r: Result<Response, ContractError>)
    ensures
        msg.id != PLACE_ORDER_REPLY_ID ==> r == Err::<Response, ContractError>(
            ContractError::UnknownReplyTag,
        ),
        msg.id == PLACE_ORDER_REPLY_ID && msg.data is None ==> (r matches Ok(resp)
            && empty_response(resp)),
        msg.data matches Some(b) ==> (msg.id == PLACE_ORDER_REPLY_ID ==> (if parses_place_orders(
            b@,
        ) {
            r matches Ok(resp) && placement_reply_response(resp, placed_order_ids(b@))
        } else {
            r == Err::<Response, ContractError>(ContractError::SerializationFailure)
        })),
{
    if msg.id != PLACE_ORDER_REPLY_ID {
        return Err(ContractError::UnknownReplyTag);
    }
    match msg.data {
        None => Ok(Response::new()),
        Some(data) => {
            match parse_place_orders_response(&data) {
                Ok(ids) => Ok(placement_reply(&ids)),
                Err(()) => Err(ContractError::SerializationFailure),
            }
        },
    }
}

} // verus!
