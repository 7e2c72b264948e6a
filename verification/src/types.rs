//! Domain data carried through the dispatchers, modeled as plain values.
use vstd::prelude::*;

verus! {

/// One whole unit, in atomic decimal units: fixed-point values carry
/// eighteen fractional decimal places.
pub const DECIMAL_FRACTIONAL: u128 = 1_000_000_000_000_000_000;

/// A fixed-point decimal with eighteen fractional places, held as its
/// count of atomic units.
#[derive(Clone, Copy, Debug, PartialEq, Eq, Structural)]
pub struct Decimal {
    pub atomics: u128,
}

impl Decimal {
    pub fn zero() -> (r: Decimal)
        ensures
            r.atomics == 0,
    {
        Decimal { atomics: 0 }
    }

    pub fn one() -> (r: Decimal)
        ensures
            r.atomics == DECIMAL_FRACTIONAL,
    {
        Decimal { atomics: DECIMAL_FRACTIONAL }
    }

    /// The decimal holding exactly `n` whole units.
    pub fn from_whole(n: u64) -> (r: Decimal)
        ensures
            r.atomics == n * DECIMAL_FRACTIONAL,
    {
        proof {
            assert((n as u128) * DECIMAL_FRACTIONAL <= (u64::MAX as u128) * DECIMAL_FRACTIONAL)
                by (nonlinear_arith)
                requires
                    n <= u64::MAX,
            ;
        }
        Decimal { atomics: (n as u128) * DECIMAL_FRACTIONAL }
    }
}

/// Whether an order opens or closes a position; carried opaquely to the
/// counterparty inside the order's data payload.
#[derive(Clone, Copy, Debug, PartialEq, Eq, Structural)]
pub enum PositionEffect {
    Open,
    Close,
}

#[derive(Clone, Copy, Debug, PartialEq, Eq, Structural)]
pub enum PositionDirection {
    Long,
    Short,
}

#[derive(Clone, Copy, Debug, PartialEq, Eq, Structural)]
pub enum OrderType {
    Limit,
    Market,
}

/// The payload serialized into an order's opaque data field; never
/// interpreted by this module after construction.
#[derive(Clone, Copy, Debug, PartialEq, Eq, Structural)]
pub struct OrderData {
    pub leverage: Decimal,
    pub position_effect: PositionEffect,
}

/// One outbound exchange order; ownership transfers to the outbound
/// message on submission.
#[derive(Clone, Debug, PartialEq)]
pub struct Order {
    pub price: Decimal,
    pub quantity: Decimal,
    pub price_denom: String,
    pub asset_denom: String,
    pub order_type: OrderType,
    pub position_direction: PositionDirection,
    /// Opaque serialized payload for the counterparty to interpret.
    pub data: String,
    pub status_description: String,
    pub nominal: Decimal,
}

/// An amount of a named token.
#[derive(Clone, Debug, PartialEq)]
pub struct Coin {
    pub denom: String,
    pub amount: u128,
}

/// The slice of the chain environment this module reads: its own address.
#[derive(Clone, Debug, PartialEq)]
pub struct Env {
    pub contract_address: String,
}

/// One settled trade reported by the chain; read-only input.
#[derive(Clone, Debug, PartialEq)]
pub struct SettlementEntry {
    pub account: String,
    pub price_denom: String,
    pub asset_denom: String,
    pub order_id: u64,
}

/// A deposit reported alongside bulk order placements; read-only input.
#[derive(Clone, Debug, PartialEq)]
pub struct DepositInfo {
    pub account: String,
    pub denom: String,
    pub amount: Decimal,
}

/// A liquidation demand reported by the chain; read-only input.
#[derive(Clone, Debug, PartialEq)]
pub struct LiquidationRequest {
    pub requestor: String,
    pub account: String,
}

/// The chain's end-of-block report of an order's outcome; read-only input.
#[derive(Clone, Debug, PartialEq)]
pub struct ContractOrderResult {
    pub contract_address: String,
    pub account: String,
}

/// One rejected order in a bulk placement, with the reason it was refused.
#[derive(Clone, Debug, PartialEq)]
pub struct UnsuccessfulOrder {
    pub id: u64,
    pub reason: String,
}

/// The record a bulk-placement callback serializes into its opaque
/// response payload: the orders it rejected, in order.
#[derive(Clone, Debug, PartialEq)]
pub struct BulkOrderPlacementsResponse {
    pub unsuccessful_orders: Vec<UnsuccessfulOrder>,
}

/// The instantiation payload; this module takes no parameters.
#[derive(Clone, Copy, Debug, PartialEq)]
pub struct InstantiateMsg {}

/// The closed set of user-transaction tags; anything outside it is
/// unrepresentable.
#[derive(Clone, Debug, PartialEq)]
pub enum ExecuteMsg {
    PlaceOrders,
    CancelOrders { order_ids: Vec<u64> },
    CreateDenom,
    Mint,
    Burn,
    ChangeAdmin,
}

/// The closed set of privileged chain callbacks; anything outside it is
/// unrepresentable.
#[derive(Clone, Debug, PartialEq)]
pub enum SudoMsg {
    Settlement { epoch: i64, entries: Vec<SettlementEntry> },
    NewBlock { epoch: i64 },
    BulkOrderPlacements { orders: Vec<Order>, deposits: Vec<DepositInfo> },
    BulkOrderCancellations { ids: Vec<u64> },
    Liquidation { requests: Vec<LiquidationRequest> },
    FinalizeBlock { contract_order_results: Vec<ContractOrderResult> },
}

/// A reply callback: the tag of the sub-operation it reports on, and the
/// host's opaque result payload when one was produced.
#[derive(Clone, Debug, PartialEq)]
pub struct ReplyMsg {
    pub id: u64,
    pub data: Option<Vec<u8>>,
}

} // verus!
