use sei_tester::contract::{
    burn, cancel_orders, change_admin, create_denom, execute, instantiate, mint, place_orders,
    process_bulk_order_placements, sudo,
};
use sei_tester::codec::decode_order_data;
use sei_tester::denom::{derive_denom, validate_addr};
use sei_tester::errors::ContractError;
use sei_tester::response::SeiMsg;
use sei_tester::types::{
    ContractOrderResult, Decimal, DepositInfo, Env, ExecuteMsg, InstantiateMsg,
    LiquidationRequest, PositionEffect, ReplyMsg, SettlementEntry, SudoMsg,
};
use sei_tester::reply::on_reply;
use sei_tester::version::{set_version, validate_migration};
use sei_tester::PLACE_ORDER_REPLY_ID;

fn env() -> Env {
    Env { contract_address: String::from("sei1contractaddress") }
}

#[test]
fn execute_place_orders_queues_one_tagged_submessage() {
    let resp = execute(&env(), ExecuteMsg::PlaceOrders).unwrap();
    assert_eq!(resp.messages.len(), 1);
    let sub = &resp.messages[0];
    assert_eq!(sub.reply_on_success, Some(PLACE_ORDER_REPLY_ID));
    match &sub.msg {
        SeiMsg::PlaceOrders { funds, orders, contract_address } => {
            assert_eq!(funds.len(), 1);
            assert_eq!(funds[0].denom, "uusdc");
            assert_eq!(funds[0].amount, 10000000000u128);
            assert_eq!(orders.len(), 1);
            let o = &orders[0];
            assert_eq!(o.price, Decimal { atomics: 120_000_000_000_000_000_000 });
            assert_eq!(o.quantity, Decimal { atomics: 1_000_000_000_000_000_000 });
            assert_eq!(o.price_denom, "USDC");
            assert_eq!(o.asset_denom, "ATOM");
            let data = decode_order_data(&o.data).unwrap();
            assert_eq!(data.leverage, Decimal { atomics: 1_000_000_000_000_000_000 });
            assert_eq!(data.position_effect, PositionEffect::Open);
            assert_eq!(
                contract_address,
                "sei14hj2tavq8fpesdwxxcu44rty3hh90vhujrvcmstl4zr3txmfvw9sh9m79m"
            );
        },
        other => panic!("wrong message variant: {:?}", other),
    }
    assert!(resp.data.is_none());
    assert!(resp.attributes.is_empty());
}

#[test]
fn execute_cancel_orders_builds_cancellation() {
    let resp = execute(&env(), ExecuteMsg::CancelOrders { order_ids: vec![3, 1, 4] }).unwrap();
    assert_eq!(resp.messages.len(), 1);
    assert_eq!(resp.messages[0].reply_on_success, None);
    match &resp.messages[0].msg {
        SeiMsg::CancelOrders { order_ids, contract_address } => {
            assert_eq!(order_ids, &vec![3, 1, 4]);
            assert_eq!(contract_address, "sei1contractaddress");
        },
        other => panic!("wrong message variant: {:?}", other),
    }
}

#[test]
fn execute_create_denom_wraps_subdenom() {
    let resp = execute(&env(), ExecuteMsg::CreateDenom).unwrap();
    assert_eq!(resp.messages.len(), 1);
    match &resp.messages[0].msg {
        SeiMsg::CreateDenom { subdenom } => assert_eq!(subdenom, "subdenom"),
        other => panic!("wrong message variant: {:?}", other),
    }
}

#[test]
fn execute_mint_burn_change_admin_share_one_denom() {
    let e = env();
    let m = execute(&e, ExecuteMsg::Mint).unwrap();
    let b = execute(&e, ExecuteMsg::Burn).unwrap();
    let c = execute(&e, ExecuteMsg::ChangeAdmin).unwrap();
    let md = match &m.messages[0].msg {
        SeiMsg::MintTokens { amount } => {
            assert_eq!(amount.amount, 10u128);
            amount.denom.clone()
        },
        other => panic!("wrong message variant: {:?}", other),
    };
    let bd = match &b.messages[0].msg {
        SeiMsg::BurnTokens { amount } => amount.denom.clone(),
        other => panic!("wrong message variant: {:?}", other),
    };
    let cd = match &c.messages[0].msg {
        SeiMsg::ChangeAdmin { denom, new_admin_address } => {
            assert_eq!(new_admin_address, "sei1hjfwcza3e3uzeznf3qthhakdr9juetl7g6esl4");
            denom.clone()
        },
        other => panic!("wrong message variant: {:?}", other),
    };
    assert_eq!(md, "factory/sei1contractaddress/subdenom");
    assert_eq!(md, bd);
    assert_eq!(bd, cd);
}

#[test]
fn builders_match_dispatcher() {
    let e = env();
    assert_eq!(execute(&e, ExecuteMsg::PlaceOrders), place_orders());
    assert_eq!(
        execute(&e, ExecuteMsg::CancelOrders { order_ids: vec![9] }),
        cancel_orders(&e, vec![9])
    );
    assert_eq!(execute(&e, ExecuteMsg::CreateDenom), create_denom());
    assert_eq!(execute(&e, ExecuteMsg::Mint), mint(&e));
    assert_eq!(execute(&e, ExecuteMsg::Burn), burn(&e));
    assert_eq!(execute(&e, ExecuteMsg::ChangeAdmin), change_admin(&e));
}

#[test]
fn derive_denom_is_pure_concatenation() {
    assert_eq!(derive_denom("sei1abc", "subdenom"), "factory/sei1abc/subdenom");
    assert_eq!(derive_denom("", ""), "factory//");
}

#[test]
fn validate_addr_accepts_and_rejects() {
    assert_eq!(validate_addr("sei1abc"), Ok(()));
    assert_eq!(validate_addr("sei1"), Err(ContractError::InvalidAddress));
    assert_eq!(validate_addr("cosmos1abcdef"), Err(ContractError::InvalidAddress));
    assert_eq!(validate_addr(""), Err(ContractError::InvalidAddress));
    let long = "sei1".to_string() + &"a".repeat(95);
    assert_eq!(validate_addr(&long), Err(ContractError::InvalidAddress));
}

#[test]
fn sudo_all_six_tags_are_handled() {
    let e = env();
    let entries = vec![SettlementEntry {
        account: String::from("acct"),
        price_denom: String::from("USDC"),
        asset_denom: String::from("ATOM"),
        order_id: 1,
    }];
    let cases = vec![
        SudoMsg::Settlement { epoch: 7, entries },
        SudoMsg::NewBlock { epoch: 8 },
        SudoMsg::BulkOrderCancellations { ids: vec![1, 2] },
        SudoMsg::Liquidation {
            requests: vec![LiquidationRequest {
                requestor: String::from("r"),
                account: String::from("a"),
            }],
        },
        SudoMsg::FinalizeBlock {
            contract_order_results: vec![ContractOrderResult {
                contract_address: String::from("sei1contractaddress"),
                account: String::from("a"),
            }],
        },
    ];
    for msg in cases {
        let resp = sudo(&e, msg).unwrap();
        assert!(resp.messages.is_empty());
        assert!(resp.attributes.is_empty());
        assert!(resp.data.is_none());
    }
    let resp = sudo(
        &e,
        SudoMsg::BulkOrderPlacements {
            orders: vec![],
            deposits: vec![DepositInfo {
                account: String::from("a"),
                denom: String::from("uusdc"),
                amount: Decimal { atomics: 5 },
            }],
        },
    )
    .unwrap();
    assert_eq!(resp.data, Some(String::from("{\"unsuccessful_orders\":[]}")));
}

#[test]
fn bulk_placements_attach_empty_rejection_payload() {
    let resp = process_bulk_order_placements(vec![], vec![]).unwrap();
    let payload = resp.data.expect("payload must be attached");
    let back = sei_tester::codec::decode_bulk_response(&payload).unwrap();
    assert!(back.unsuccessful_orders.is_empty());
}

#[test]
fn reply_with_unknown_tag_fails() {
    for id in [0u64, 2, 3, u64::MAX] {
        let r = on_reply(ReplyMsg { id, data: None });
        assert_eq!(r, Err(ContractError::UnknownReplyTag));
    }
}

#[test]
fn reply_without_payload_is_empty_response() {
    let resp = on_reply(ReplyMsg { id: PLACE_ORDER_REPLY_ID, data: None }).unwrap();
    assert!(resp.messages.is_empty());
    assert!(resp.attributes.is_empty());
    assert!(resp.data.is_none());
}

#[test]
fn reply_parses_protobuf_result_payload() {
    let mut placed = sei_cosmwasm::MsgPlaceOrdersResponse::new();
    placed.order_ids = vec![11, 22, 33];
    let bytes = <sei_cosmwasm::MsgPlaceOrdersResponse as protobuf::Message>::write_to_bytes(
        &placed,
    )
    .unwrap();
    let resp = on_reply(ReplyMsg { id: PLACE_ORDER_REPLY_ID, data: Some(bytes) }).unwrap();
    assert_eq!(resp.attributes.len(), 1);
    assert_eq!(resp.attributes[0].key, "placed_orders");
    assert_eq!(resp.attributes[0].value, "3");
}

#[test]
fn reply_with_malformed_payload_fails() {
    let r = on_reply(ReplyMsg { id: PLACE_ORDER_REPLY_ID, data: Some(vec![0xff, 0xff, 0xff]) });
    assert_eq!(r, Err(ContractError::SerializationFailure));
}

#[test]
fn instantiate_persists_the_version_marker() {
    let mut store = cosmwasm_std::MemoryStorage::default();
    let resp = instantiate(&mut store, &env(), InstantiateMsg {}).unwrap();
    assert!(resp.messages.is_empty() && resp.attributes.is_empty() && resp.data.is_none());
    let cv = cw2::get_contract_version(&store).unwrap();
    assert_eq!(cv.contract, "crates.io:sei-tester");
    assert_eq!(cv.version, "0.1.0");
}

#[test]
fn validate_migration_succeeds_iff_names_match() {
    let mut store = cosmwasm_std::MemoryStorage::default();
    assert_eq!(
        validate_migration(&store, "crates.io:sei-tester"),
        Err(ContractError::VersionMismatch)
    );
    set_version(&mut store, "crates.io:sei-tester", "0.1.0").unwrap();
    assert_eq!(validate_migration(&store, "crates.io:sei-tester"), Ok(()));
    assert_eq!(validate_migration(&store, "other"), Err(ContractError::VersionMismatch));
    assert_eq!(validate_migration(&store, ""), Err(ContractError::VersionMismatch));
    assert_eq!(
        validate_migration(&store, "Crates.io:sei-tester"),
        Err(ContractError::VersionMismatch)
    );
    assert_eq!(
        validate_migration(&store, "crates.io:sei-tester "),
        Err(ContractError::VersionMismatch)
    );
}

#[test]
fn set_version_overwrites_previous_record() {
    let mut store = cosmwasm_std::MemoryStorage::default();
    set_version(&mut store, "crates.io:sei-tester", "0.1.0").unwrap();
    set_version(&mut store, "crates.io:sei-tester", "0.2.0").unwrap();
    let cv = cw2::get_contract_version(&store).unwrap();
    assert_eq!(cv.version, "0.2.0");
}

#[test]
fn errors_describe_themselves() {
    assert!(!ContractError::VersionMismatch.describe().is_empty());
    assert!(!ContractError::UnknownReplyTag.describe().is_empty());
}
