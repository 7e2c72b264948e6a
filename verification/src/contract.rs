//! The entry points: instantiation, the execute dispatcher over the six
//! user message tags, its action builders, and the sudo dispatcher over
//! the six privileged chain callbacks.
use vstd::prelude::*;
use vstd::string::*;

use crate::codec::{
    encode_bulk_spec, encode_order_data, encode_order_data_spec, orders_view,
};
use crate::denom::{denom_of, derive_denom, valid_addr, validate_addr};
use crate::errors::ContractError;
use crate::response::{empty_response, Response, SeiMsg, SubMsg};
use crate::types::{
    BulkOrderPlacementsResponse, Coin, ContractOrderResult, Decimal, DepositInfo, Env, ExecuteMsg,
    InstantiateMsg, LiquidationRequest, Order, OrderData, OrderType, PositionDirection,
    PositionEffect, SettlementEntry, SudoMsg, UnsuccessfulOrder, DECIMAL_FRACTIONAL,
};
use crate::version::{set_version, version_record};
use crate::PLACE_ORDER_REPLY_ID;

verus! {

/// The name this module records for itself in the version store.
pub open spec fn contract_name_spec() -> Seq<char> {
    "crates.io:sei-tester"@
}

pub open spec fn contract_version_spec() -> Seq<char> {
    "0.1.0"@
}

pub fn contract_name() -> (r: &'static str)
    ensures
        r@ == contract_name_spec(),
{
    "crates.io:sei-tester"
}

pub fn contract_version() -> (r: &'static str)
    ensures
        r@ == contract_version_spec(),
{
    "0.1.0"
}

/// The fixed sub-denomination this module issues under.
pub open spec fn subdenom_spec() -> Seq<char> {
    "subdenom"@
}

/// The exchange contract the fixed test order is sent to.
pub open spec fn place_order_target() -> Seq<char> {
    "sei14hj2tavq8fpesdwxxcu44rty3hh90vhujrvcmstl4zr3txmfvw9sh9m79m"@
}

/// The admin the change-admin message hands the denom to.
pub open spec fn new_admin_spec() -> Seq<char> {
    "sei1hjfwcza3e3uzeznf3qthhakdr9juetl7g6esl4"@
}

/// The opaque payload attached to the fixed test order.
pub open spec fn default_order_data() -> OrderData {
    OrderData {
        leverage: Decimal { atomics: DECIMAL_FRACTIONAL },
        position_effect: PositionEffect::Open,
    }
}

/// The fixed test order the place-orders builder submits.
pub open spec fn default_order(o: Order) -> bool {
    &&& o.price.atomics == 120 * DECIMAL_FRACTIONAL
    &&& o.quantity.atomics == DECIMAL_FRACTIONAL
    &&& o.price_denom@ == "USDC"@
    &&& o.asset_denom@ == "ATOM"@
    &&& o.order_type is Limit
    &&& o.position_direction is Long
    &&& o.data@ == encode_order_data_spec(default_order_data())
    &&& o.status_description@ == ""@
    &&& o.nominal.atomics == 0
}

/// What a successful place-orders call queues: exactly one sub-operation,
/// registered for a success reply under the place-order tag.
pub open spec fn place_orders_response(resp: Response) -> bool {
    &&& resp.messages@.len() == 1
    &&& resp.messages@[0].reply_on_success == Some(PLACE_ORDER_REPLY_ID)
    &&& (resp.messages@[0].msg matches SeiMsg::PlaceOrders { funds, orders, contract_address } && {
        &&& funds@.len() == 1
        &&& funds@[0].denom@ == "uusdc"@
        &&& funds@[0].amount == 10000000000u128
        &&& orders@.len() == 1
        &&& default_order(orders@[0])
        &&& contract_address@ == place_order_target()
    })
    &&& resp.attributes@.len() == 0
    &&& resp.data is None
}

/// What a cancel-orders call queues: one fire-and-forget cancellation of
/// exactly the given ids, issued under this contract's own address.
pub open spec fn cancel_orders_response(resp: Response, env: Env, ids: Seq<u64>) -> bool {
    &&& resp.messages@.len() == 1
    &&& resp.messages@[0].reply_on_success is None
    &&& (resp.messages@[0].msg matches SeiMsg::CancelOrders { order_ids, contract_address } && {
        &&& order_ids@ == ids
        &&& contract_address@ == env.contract_address@
    })
    &&& resp.attributes@.len() == 0
    &&& resp.data is None
}

pub open spec fn create_denom_response(resp: Response) -> bool {
    &&& resp.messages@.len() == 1
    &&& resp.messages@[0].reply_on_success is None
    &&& (resp.messages@[0].msg matches SeiMsg::CreateDenom { subdenom } && subdenom@
        == subdenom_spec())
    &&& resp.attributes@.len() == 0
    &&& resp.data is None
}

pub open spec fn mint_response(resp: Response, env: Env) -> bool {
    &&& resp.messages@.len() == 1
    &&& resp.messages@[0].reply_on_success is None
    &&& (resp.messages@[0].msg matches SeiMsg::MintTokens { amount } && {
        &&& amount.denom@ == denom_of(env.contract_address@, subdenom_spec())
        &&& amount.amount == 10u128
    })
    &&& resp.attributes@.len() == 0
    &&& resp.data is None
}

pub open spec fn burn_response(resp: Response, env: Env) -> bool {
    &&& resp.messages@.len() == 1
    &&& resp.messages@[0].reply_on_success is None
    &&& (resp.messages@[0].msg matches SeiMsg::BurnTokens { amount } && {
        &&& amount.denom@ == denom_of(env.contract_address@, subdenom_spec())
        &&& amount.amount == 10u128
    })
    &&& resp.attributes@.len() == 0
    &&& resp.data is None
}

pub open spec fn change_admin_response(resp: Response, env: Env) -> bool {
    &&& resp.messages@.len() == 1
    &&& resp.messages@[0].reply_on_success is None
    &&& (resp.messages@[0].msg matches SeiMsg::ChangeAdmin { denom, new_admin_address } && {
        &&& denom@ == denom_of(env.contract_address@, subdenom_spec())
        &&& new_admin_address@ == new_admin_spec()
    })
    &&& resp.attributes@.len() == 0
    &&& resp.data is None
}

/// Writes this module's version marker and returns an empty response.
pub fn instantiate(store: &mut cosmwasm_std::MemoryStorage, _env: &Env, _msg: InstantiateMsg) -> (r:
    Result<Response, ContractError>)
    ensures
        r matches Ok(resp) ==> empty_response(resp) && version_record(*final(store)) == seq![
            (contract_name_spec(), contract_version_spec()),
        ],
        r is Err ==> r == Err::<Response, ContractError>(ContractError::StorageFailure)
            && version_record(*final(store)) == version_record(*old(store)),
{
    match set_version(store, contract_name(), contract_version()) {
        Ok(()) => Ok(Response::new()),
        Err(e) => Err(e),
    }
}

/// Builds the fixed test order and queues it as a reply-tagged
/// sub-operation; the target address is validated before use.
pub fn place_orders() -> (r: Result<Response, ContractError>)
    ensures
        r matches Ok(resp) && place_orders_response(resp),
{
    let order_data = OrderData {
        leverage: Decimal::one(),
        position_effect: PositionEffect::Open,
    };
    let data = encode_order_data(&order_data);
    let order_placement = Order {
        price: Decimal::from_whole(120),
        quantity: Decimal::one(),
        price_denom: String::from_str("USDC"),
        asset_denom: String::from_str("ATOM"),
        order_type: OrderType::Limit,
        position_direction: PositionDirection::Long,
        data,
        status_description: String::from_str(""),
        nominal: Decimal::zero(),
    };
    let fund = Coin { denom: String::from_str("uusdc"), amount: 10000000000u128 };
    let contract_address = String::from_str(
        "sei14hj2tavq8fpesdwxxcu44rty3hh90vhujrvcmstl4zr3txmfvw9sh9m79m",
    );
    proof {
        reveal_strlit("sei14hj2tavq8fpesdwxxcu44rty3hh90vhujrvcmstl4zr3txmfvw9sh9m79m");
        reveal_strlit("sei1");
        assert(place_order_target().subrange(0, 4) =~= "sei1"@);
        assert(valid_addr(place_order_target()));
    }
    match validate_addr(contract_address.as_str()) {
        Ok(()) => {},
        Err(e) => {
            return Err(e);
        },
    }
    let test_order = SeiMsg::PlaceOrders {
        funds: vec![fund],
        orders: vec![order_placement],
        contract_address,
    };
    let sub = SubMsg { msg: test_order, reply_on_success: Some(PLACE_ORDER_REPLY_ID) };
    Ok(Response::new().add_submessage(sub))
}

/// Maps the given order ids and this contract's own address into one
/// fire-and-forget cancellation message.
pub fn cancel_orders(env: &Env, order_ids: Vec<u64>) -> (r: Result<Response, ContractError>)
    ensures
        r matches Ok(resp) && cancel_orders_response(resp, *env, order_ids@),
{
    let test_cancel = SeiMsg::CancelOrders {
        order_ids,
        contract_address: env.contract_address.clone(),
    };
    Ok(Response::new().add_message(test_cancel))
}

/// Wraps the fixed sub-denomination in a create-denom message.
pub fn create_denom() -> (r: Result<Response, ContractError>)
    ensures
        r matches Ok(resp) && create_denom_response(resp),
{
    let test_create_denom = SeiMsg::CreateDenom { subdenom: String::from_str("subdenom") };
    Ok(Response::new().add_message(test_create_denom))
}

/// Derives the fully-qualified denom and queues a mint of ten units.
pub fn mint(env: &Env) -> (r: Result<Response, ContractError>)
    ensures
        r matches Ok(resp) && mint_response(resp, *env),
{
    let tokenfactory_denom = derive_denom(env.contract_address.as_str(), "subdenom");
    let amount = Coin { denom: tokenfactory_denom, amount: 10u128 };
    let test_mint = SeiMsg::MintTokens { amount };
    Ok(Response::new().add_message(test_mint))
}

/// Derives the fully-qualified denom and queues a burn of ten units.
pub fn burn(env: &Env) -> (r: Result<Response, ContractError>)
    ensures
        r matches Ok(resp) && burn_response(resp, *env),
{
    let tokenfactory_denom = derive_denom(env.contract_address.as_str(), "subdenom");
    let amount = Coin { denom: tokenfactory_denom, amount: 10u128 };
    let test_burn = SeiMsg::BurnTokens { amount };
    Ok(Response::new().add_message(test_burn))
}

/// Derives the fully-qualified denom and hands it to the fixed new admin.
pub fn change_admin(env: &Env) -> (r: Result<Response, ContractError>)
    ensures
        r matches Ok(resp) && change_admin_response(resp, *env),
{
    let tokenfactory_denom = derive_denom(env.contract_address.as_str(), "subdenom");
    let new_admin_address = String::from_str("sei1hjfwcza3e3uzeznf3qthhakdr9juetl7g6esl4");
    let test_change_admin = SeiMsg::ChangeAdmin { denom: tokenfactory_denom, new_admin_address };
    Ok(Response::new().add_message(test_change_admin))
}

/// The execute dispatcher: total over the closed tag set, each tag
/// invoking exactly one builder and producing exactly one outbound
/// message.
pub fn execute(env: &Env, msg: ExecuteMsg) -> (r: Result<Response, ContractError>)
    ensures
        msg is PlaceOrders ==> (r matches Ok(resp) && place_orders_response(resp)),
        (msg matches ExecuteMsg::CancelOrders { order_ids } ==> (r matches Ok(resp)
            && cancel_orders_response(resp, *env, order_ids@))),
        msg is CreateDenom ==> (r matches Ok(resp) && create_denom_response(resp)),
        msg is Mint ==> (r matches Ok(resp) && mint_response(resp, *env)),
        msg is Burn ==> (r matches Ok(resp) && burn_response(resp, *env)),
        msg is ChangeAdmin ==> (r matches Ok(resp) && change_admin_response(resp, *env)),
{
    match msg {
        ExecuteMsg::PlaceOrders => place_orders(),
        ExecuteMsg::CancelOrders { order_ids } => cancel_orders(env, order_ids),
        ExecuteMsg::CreateDenom => create_denom(),
        ExecuteMsg::Mint => mint(env),
        ExecuteMsg::Burn => burn(env),
        ExecuteMsg::ChangeAdmin => change_admin(env),
    }
}

/// Acknowledges a settlement report; an informational fold with no
/// required side effect.
pub fn process_settlements(_entries: Vec<SettlementEntry>, _epoch: i64) -> (r: Result<
    Response,
    ContractError,
>)
    ensures
        r matches Ok(resp) && empty_response(resp),
{
    Ok(Response::new())
}

/// The per-block hook; no required side effect.
pub fn handle_new_block(_epoch: i64) -> (r: Result<Response, ContractError>)
    ensures
        r matches Ok(resp) && empty_response(resp),
{
    Ok(Response::new())
}

/// Builds the response for a bulk placement from the orders it rejects:
/// the serialized rejection list rides in the response's opaque payload.
pub fn bulk_placement_response(rejections: Vec<UnsuccessfulOrder>) -> (r: Result<
    Response,
    ContractError,
>)
    ensures
        crate::codec::encodable_bulk(orders_view(rejections@)) ==> (r matches Ok(resp) && {
            &&& resp.messages@.len() == 0
            &&& resp.attributes@.len() == 0
            &&& (resp.data matches Some(d) && d@ == encode_bulk_spec(orders_view(rejections@)))
        }),
        !crate::codec::encodable_bulk(orders_view(rejections@)) ==> r == Err::<
            Response,
            ContractError,
        >(ContractError::SerializationFailure),
        r is Err ==> r == Err::<Response, ContractError>(ContractError::SerializationFailure),
{
    let response = BulkOrderPlacementsResponse { unsuccessful_orders: rejections };
    match crate::codec::encode_bulk_response(&response) {
        Ok(serialized) => Ok(Response::new().set_data(serialized)),
        Err(e) => Err(e),
    }
}

/// Accepts every order in the batch and attaches the (empty) rejection
/// list as the call's opaque output payload.
pub fn process_bulk_order_placements(_orders: Vec<Order>, _deposits: Vec<DepositInfo>) -> (r:
    Result<Response, ContractError>)
    ensures
        r matches Ok(resp) && {
            &&& resp.messages@.len() == 0
            &&& resp.attributes@.len() == 0
            &&& (resp.data matches Some(d) && d@ == encode_bulk_spec(Seq::empty()))
        },
{
    let rejections: Vec<UnsuccessfulOrder> = Vec::new();
    proof {
        assert(orders_view(rejections@) =~= Seq::<(u64, Seq<char>)>::empty());
    }
    let r = bulk_placement_response(rejections);
    proof {
        assert(crate::codec::encodable_bulk(Seq::<(u64, Seq<char>)>::empty()));
    }
    match r {
        Ok(resp) => Ok(resp),
        Err(e) => Err(e),
    }
}

/// Acknowledges a batch cancellation.
pub fn process_bulk_order_cancellations(_ids: Vec<u64>) -> (r: Result<Response, ContractError>)
    ensures
        r matches Ok(resp) && empty_response(resp),
{
    Ok(Response::new())
}

/// Acknowledges liquidation requests.
pub fn process_bulk_liquidation(_requests: Vec<LiquidationRequest>) -> (r: Result<
    Response,
    ContractError,
>)
    ensures
        r matches Ok(resp) && empty_response(resp),
{
    Ok(Response::new())
}

/// Consumes the chain's end-of-block report of order outcomes.
pub fn process_finalize_block(_contract_order_results: Vec<ContractOrderResult>) -> (r: Result<
    Response,
    ContractError,
>)
    ensures
        r matches Ok(resp) && empty_response(resp),
{
    Ok(Response::new())
}

/// The sudo dispatcher: total over the closed callback set, every branch
/// returning a well-formed (possibly contentless) response.
pub fn sudo(_env: &Env, msg: SudoMsg) -> (r: Result<Response, ContractError>)
    ensures
        r is Ok,
        (msg matches SudoMsg::BulkOrderPlacements { orders, deposits } ==> (r matches Ok(resp) && {
            &&& resp.messages@.len() == 0
            &&& resp.attributes@.len() == 0
            &&& (resp.data matches Some(d) && d@ == encode_bulk_spec(Seq::empty()))
        })),
        !(msg is BulkOrderPlacements) ==> (r matches Ok(resp) && empty_response(resp)),
{
    match msg {
        SudoMsg::Settlement { epoch, entries } => process_settlements(entries, epoch),
        SudoMsg::NewBlock { epoch } => handle_new_block(epoch),
        SudoMsg::BulkOrderPlacements { orders, deposits } => {
            process_bulk_order_placements(orders, deposits)
        },
        SudoMsg::BulkOrderCancellations { ids } => process_bulk_order_cancellations(ids),
        SudoMsg::Liquidation { requests } => process_bulk_liquidation(requests),
        SudoMsg::FinalizeBlock { contract_order_results } => {
            process_finalize_block(contract_order_results)
        },
    }
}

/// Mint, burn and change-admin derive one and the same fully-qualified
/// denom: the pure string function of the contract's address and the
/// fixed sub-denomination that each of their contracts pins.
pub proof fn lemma_denom_consistency(
    mint_denom: Seq<char>,
    burn_denom: Seq<char>,
    admin_denom: Seq<char>,
    addr: Seq<char>,
)
    requires
        mint_denom == denom_of(addr, subdenom_spec()),
        burn_denom == denom_of(addr, subdenom_spec()),
        admin_denom == denom_of(addr, subdenom_spec()),
    ensures
        mint_denom == burn_denom,
        burn_denom == admin_denom,
        mint_denom == "factory/"@ + addr + "/"@ + subdenom_spec(),
{
}

} // verus!
