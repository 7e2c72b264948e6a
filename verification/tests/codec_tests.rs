use sei_tester::codec::{
    decode_bulk_response, decode_order_data, encode_bulk_response, encode_order_data,
};
use sei_tester::errors::ContractError;
use sei_tester::types::{
    BulkOrderPlacementsResponse, Decimal, OrderData, PositionEffect, UnsuccessfulOrder,
};

fn od(atomics: u128, effect: PositionEffect) -> OrderData {
    OrderData { leverage: Decimal { atomics }, position_effect: effect }
}

#[test]
fn encode_order_data_exact_text() {
    let x = od(1_000_000_000_000_000_000, PositionEffect::Open);
    let t = encode_order_data(&x);
    assert_eq!(
        t,
        "{\"leverage\":\"1000000000000000000\",\"position_effect\":\"Open\"}"
    );
}

#[test]
fn encode_order_data_is_valid_json() {
    let x = od(1_000_000_000_000_000_000, PositionEffect::Close);
    let t = encode_order_data(&x);
    let v: serde_json::Value = serde_json::from_str(&t).unwrap();
    assert_eq!(v["leverage"], "1000000000000000000");
    assert_eq!(v["position_effect"], "Close");
}

#[test]
fn order_data_round_trips() {
    let cases = vec![
        od(0, PositionEffect::Open),
        od(1, PositionEffect::Close),
        od(120_000_000_000_000_000_000, PositionEffect::Open),
        od(u128::MAX, PositionEffect::Close),
    ];
    for x in cases {
        let t = encode_order_data(&x);
        assert_eq!(decode_order_data(&t), Some(x));
    }
}

#[test]
fn decode_order_data_rejects_malformed() {
    assert_eq!(decode_order_data(""), None);
    assert_eq!(decode_order_data("{}"), None);
    assert_eq!(decode_order_data("{\"leverage\":\"\",\"position_effect\":\"Open\"}"), None);
    // leading zero is not canonical
    assert_eq!(decode_order_data("{\"leverage\":\"01\",\"position_effect\":\"Open\"}"), None);
    // one past u128::MAX
    assert_eq!(
        decode_order_data(
            "{\"leverage\":\"340282366920938463463374607431768211456\",\"position_effect\":\"Open\"}"
        ),
        None
    );
    // unknown effect
    assert_eq!(decode_order_data("{\"leverage\":\"1\",\"position_effect\":\"Hold\"}"), None);
    // trailing garbage
    assert_eq!(decode_order_data("{\"leverage\":\"1\",\"position_effect\":\"Open\"} "), None);
}

#[test]
fn decode_order_data_accepts_max_u128() {
    let t = "{\"leverage\":\"340282366920938463463374607431768211455\",\"position_effect\":\"Open\"}";
    assert_eq!(decode_order_data(t), Some(od(u128::MAX, PositionEffect::Open)));
}

#[test]
fn bulk_empty_encodes_to_empty_list() {
    let x = BulkOrderPlacementsResponse { unsuccessful_orders: vec![] };
    let t = encode_bulk_response(&x).unwrap();
    assert_eq!(t, "{\"unsuccessful_orders\":[]}");
    let back = decode_bulk_response(&t).unwrap();
    assert!(back.unsuccessful_orders.is_empty());
}

#[test]
fn bulk_nonempty_round_trips() {
    let x = BulkOrderPlacementsResponse {
        unsuccessful_orders: vec![
            UnsuccessfulOrder { id: 5, reason: String::from("insufficient funds") },
            UnsuccessfulOrder { id: 70000, reason: String::from("bad pair") },
        ],
    };
    let t = encode_bulk_response(&x).unwrap();
    let v: serde_json::Value = serde_json::from_str(&t).unwrap();
    assert_eq!(v["unsuccessful_orders"][0]["id"], 5);
    assert_eq!(v["unsuccessful_orders"][0]["reason"], "insufficient funds");
    assert_eq!(v["unsuccessful_orders"][1]["id"], 70000);
    let back = decode_bulk_response(&t).unwrap();
    assert_eq!(back.unsuccessful_orders.len(), 2);
    assert_eq!(back.unsuccessful_orders[0].id, 5);
    assert_eq!(back.unsuccessful_orders[0].reason, "insufficient funds");
    assert_eq!(back.unsuccessful_orders[1].id, 70000);
    assert_eq!(back.unsuccessful_orders[1].reason, "bad pair");
}

#[test]
fn bulk_unrepresentable_reason_fails() {
    let x = BulkOrderPlacementsResponse {
        unsuccessful_orders: vec![UnsuccessfulOrder { id: 1, reason: String::from("a\"b") }],
    };
    assert_eq!(encode_bulk_response(&x), Err(ContractError::SerializationFailure));
    let y = BulkOrderPlacementsResponse {
        unsuccessful_orders: vec![UnsuccessfulOrder { id: 1, reason: String::from("a\\b") }],
    };
    assert_eq!(encode_bulk_response(&y), Err(ContractError::SerializationFailure));
}

#[test]
fn bulk_decode_rejects_malformed() {
    assert_eq!(decode_bulk_response(""), None);
    assert_eq!(decode_bulk_response("{\"unsuccessful_orders\":"), None);
    assert_eq!(decode_bulk_response("{\"unsuccessful_orders\":[}"), None);
    assert_eq!(decode_bulk_response("{\"unsuccessful_orders\":[{\"id\":01,\"reason\":\"x\"}]}"), None);
    assert_eq!(decode_bulk_response("{\"unsuccessful_orders\":[]} "), None);
    // one past u64::MAX
    assert_eq!(
        decode_bulk_response("{\"unsuccessful_orders\":[{\"id\":18446744073709551616,\"reason\":\"x\"}]}"),
        None
    );
}
