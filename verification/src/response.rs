//! Outbound protocol messages and the structured response every entry
//! point returns.
use vstd::prelude::*;

use crate::types::{Coin, Order};

verus! {

/// The closed set of outbound protocol messages the builders construct.
#[derive(Clone, Debug, PartialEq)]
pub enum SeiMsg {
    PlaceOrders { funds: Vec<Coin>, orders: Vec<Order>, contract_address: String },
    CancelOrders { order_ids: Vec<u64>, contract_address: String },
    CreateDenom { subdenom: String },
    MintTokens { amount: Coin },
    BurnTokens { amount: Coin },
    ChangeAdmin { denom: String, new_admin_address: String },
}

/// One queued outbound message; when `reply_on_success` carries a tag, the
/// host calls back into the reply correlator with that tag after the
/// message succeeds.
#[derive(Clone, Debug, PartialEq)]
pub struct SubMsg {
    pub msg: SeiMsg,
    pub reply_on_success: Option<u64>,
}

/// One key/value pair attached to a response for the host's event log.
#[derive(Clone, Debug, PartialEq)]
pub struct Attribute {
    pub key: String,
    pub value: String,
}

/// What a successful entry point hands back to the host: queued outbound
/// messages, event attributes, and an optional opaque payload.
#[derive(Clone, Debug, PartialEq)]
pub struct Response {
    pub messages: Vec<SubMsg>,
    pub attributes: Vec<Attribute>,
    pub data: Option<String>,
}

/// A response that queues nothing, attaches nothing and reports nothing.
pub open spec fn empty_response(r: Response) -> bool {
    &&& r.messages@.len() == 0
    &&& r.attributes@.len() == 0
    &&& r.data is None
}

impl Response {
    pub fn new() -> (r: Response)
        ensures
            empty_response(r),
    {
        Response { messages: Vec::new(), attributes: Vec::new(), data: None }
    }

    /// Queue one fire-and-forget message: no reply is requested for it.
    pub fn add_message(self, msg: SeiMsg) -> (r: Response)
        ensures
            r.messages@.len() == self.messages@.len() + 1,
            r.messages@ == self.messages@.push(SubMsg { msg, reply_on_success: None }),
            r.attributes@ == self.attributes@,
            r.data == self.data,
    {
        let mut messages = self.messages;
        messages.push(SubMsg { msg, reply_on_success: None });
        Response { messages, attributes: self.attributes, data: self.data }
    }

    /// Queue one sub-operation whose success the host reports back under
    /// the given reply tag.
    pub fn add_submessage(self, sub: SubMsg) -> (r: Response)
        ensures
            r.messages@.len() == self.messages@.len() + 1,
            r.messages@ == self.messages@.push(sub),
            r.attributes@ == self.attributes@,
            r.data == self.data,
    {
        let mut messages = self.messages;
        messages.push(sub);
        Response { messages, attributes: self.attributes, data: self.data }
    }

    /// Attach the opaque payload the host will parse.
    pub fn set_data(self, data: String) -> (r: Response)
        ensures
            r.messages@ == self.messages@,
            r.attributes@ == self.attributes@,
            r.data matches Some(d) && d@ == data@,
    {
        Response { messages: self.messages, attributes: self.attributes, data: Some(data) }
    }

    /// Attach one event attribute.
    pub fn add_attribute(self, key: String, value: String) -> (r: Response)
        ensures
            r.messages@ == self.messages@,
            r.attributes@ == self.attributes@.push(Attribute { key, value }),
            r.data == self.data,
    {
        let mut attributes = self.attributes;
        attributes.push(Attribute { key, value });
        Response { messages: self.messages, attributes, data: self.data }
    }
}

} // verus!
