use sovtoken::address::encode_address;
use sovtoken::errors::ErrorCode;
use sovtoken::handlers::{
    add_request_fees, build_get_utxo_request, build_mint_txn, build_payment_req,
    build_set_txn_fees, create_payment_address_deliver, create_payment_address_prepare,
    get_utxo_deliver, list_payment_addresses,
};
use sovtoken::requests::{config_from_json, ReqIdGen};

const DID: &str = "V4SGRU86Z58d6TV7PBUe6f";

fn sample_address() -> String {
    encode_address(&vec![9u8; 32])
}

#[test]
fn null_callback_is_refused_by_position() {
    let out = build_mint_txn(Some(DID), Some("[]"), false, 1);
    assert_eq!(out.ret, ErrorCode::CommonInvalidParam5);
    assert!(out.callback.is_none());

    let out = build_payment_req(Some(DID), Some("[]"), Some("[]"), false, 1);
    assert_eq!(out.ret, ErrorCode::CommonInvalidParam6);
    assert!(out.callback.is_none());

    let out = build_set_txn_fees(Some(DID), Some("{}"), false, 1);
    assert_eq!(out.ret, ErrorCode::CommonInvalidParam5);
    assert!(out.callback.is_none());

    let out = add_request_fees(Some("{}"), Some("[]"), Some("[]"), false);
    assert_eq!(out.ret, ErrorCode::CommonInvalidParam6);
    assert!(out.callback.is_none());

    assert!(matches!(
        create_payment_address_prepare(Some("{}"), false),
        Err(ErrorCode::CommonInvalidParam4)
    ));

    assert_eq!(
        build_get_utxo_request(Some(DID), Some(&sample_address()), false),
        Err(ErrorCode::CommonInvalidParam5)
    );
}

#[test]
fn null_pointers_are_refused_by_position() {
    let out = build_mint_txn(Some(DID), None, true, 1);
    assert_eq!(out.ret, ErrorCode::CommonInvalidParam4);
    assert!(out.callback.is_none());

    let out = build_payment_req(None, Some("[]"), Some("[]"), true, 1);
    assert_eq!(out.ret, ErrorCode::CommonInvalidParam3);
    assert!(out.callback.is_none());
    let out = build_payment_req(Some(DID), None, Some("[]"), true, 1);
    assert_eq!(out.ret, ErrorCode::CommonInvalidParam4);
    assert!(out.callback.is_none());
    let out = build_payment_req(Some(DID), Some("[]"), None, true, 1);
    assert_eq!(out.ret, ErrorCode::CommonInvalidParam5);
    assert!(out.callback.is_none());

    let out = build_set_txn_fees(Some(DID), None, true, 1);
    assert_eq!(out.ret, ErrorCode::CommonInvalidParam4);
    assert!(out.callback.is_none());

    let out = add_request_fees(None, Some("[]"), Some("[]"), true);
    assert_eq!(out.ret, ErrorCode::CommonInvalidParam4);
    assert!(out.callback.is_none());
    let out = add_request_fees(Some("{}"), None, Some("[]"), true);
    assert_eq!(out.ret, ErrorCode::CommonInvalidParam5);
    assert!(out.callback.is_none());
    let out = add_request_fees(Some("{}"), Some("[]"), None, true);
    assert_eq!(out.ret, ErrorCode::CommonInvalidParam6);
    assert!(out.callback.is_none());

    assert!(matches!(
        create_payment_address_prepare(None, true),
        Err(ErrorCode::CommonInvalidParam3)
    ));

    assert_eq!(
        build_get_utxo_request(None, Some(&sample_address()), true),
        Err(ErrorCode::CommonInvalidParam3)
    );
    assert_eq!(
        build_get_utxo_request(Some(DID), None, true),
        Err(ErrorCode::CommonInvalidParam4)
    );
}

#[test]
fn transfer_requests_take_no_fees() {
    let out = add_request_fees(
        Some("{\"operation\":{\"type\":\"10000\"}}"),
        Some("[]"),
        Some("[]"),
        true,
    );
    assert_eq!(out.ret, ErrorCode::CommonInvalidStructure);
    assert!(out.callback.is_none());
}

#[test]
fn other_requests_are_echoed_with_invalid_state() {
    let req = "{\"operation\":{\"type\":\"3\"}}";
    let out = add_request_fees(Some(req), Some("[]"), Some("[]"), true);
    assert_eq!(out.ret, ErrorCode::Success);
    let cb = out.callback.expect("callback expected");
    assert_eq!(cb.err, ErrorCode::CommonInvalidState);
    assert_eq!(cb.json.as_deref(), Some(req));
}

#[test]
fn malformed_or_typeless_fee_requests_are_structure_errors() {
    let out = add_request_fees(Some("{nope"), Some("[]"), Some("[]"), true);
    assert_eq!(out.ret, ErrorCode::CommonInvalidStructure);
    assert!(out.callback.is_none());

    let out = add_request_fees(Some("{\"operation\":{}}"), Some("[]"), Some("[]"), true);
    assert_eq!(out.ret, ErrorCode::CommonInvalidStructure);
    assert!(out.callback.is_none());

    let out = add_request_fees(Some("{\"other\":1}"), Some("[]"), Some("[]"), true);
    assert_eq!(out.ret, ErrorCode::CommonInvalidStructure);
    assert!(out.callback.is_none());
}

#[test]
fn mint_envelope_has_exactly_the_envelope_fields() {
    let addr = sample_address();
    let outputs = format!("[{{\"address\":\"{}\",\"amount\":10}}]", addr);
    let out = build_mint_txn(Some(DID), Some(&outputs), true, 42);
    assert_eq!(out.ret, ErrorCode::Success);
    let cb = out.callback.expect("callback expected");
    assert_eq!(cb.err, ErrorCode::Success);
    let text = cb.json.expect("payload expected");
    let v: serde_json::Value = serde_json::from_str(&text).unwrap();
    let obj = v.as_object().unwrap();
    let mut keys: Vec<&str> = obj.keys().map(|k| k.as_str()).collect();
    keys.sort();
    assert_eq!(keys, vec!["identifier", "operation", "protocolVersion", "reqId"]);
    assert_eq!(obj["reqId"], serde_json::Value::from(42u64));
    assert_eq!(obj["protocolVersion"], serde_json::Value::from(1u64));
    assert_eq!(obj["identifier"], serde_json::Value::from(DID));
    let op = obj["operation"].as_object().unwrap();
    assert_eq!(op["type"], serde_json::Value::from("10001"));
    let expected: serde_json::Value = serde_json::from_str(&outputs).unwrap();
    assert_eq!(op["outputs"], expected);
}

#[test]
fn mint_without_submitter_has_no_identifier_field() {
    let addr = sample_address();
    let outputs = format!("[{{\"address\":\"{}\",\"amount\":1}}]", addr);
    let out = build_mint_txn(None, Some(&outputs), true, 7);
    assert_eq!(out.ret, ErrorCode::Success);
    let text = out.callback.unwrap().json.unwrap();
    let v: serde_json::Value = serde_json::from_str(&text).unwrap();
    let obj = v.as_object().unwrap();
    assert!(!obj.contains_key("identifier"));
    assert_eq!(obj.len(), 3);
}

#[test]
fn set_fees_envelope_carries_the_table_verbatim() {
    let out = build_set_txn_fees(Some(DID), Some("{\"1\":1,\"10000\":2}"), true, 5);
    assert_eq!(out.ret, ErrorCode::Success);
    let cb = out.callback.expect("callback expected");
    assert_eq!(cb.err, ErrorCode::Success);
    let text = cb.json.expect("payload expected");
    let v: serde_json::Value = serde_json::from_str(&text).unwrap();
    assert_eq!(v["operation"]["type"], serde_json::Value::from("20000"));
    let expected: serde_json::Value = serde_json::from_str("{\"1\":1,\"10000\":2}").unwrap();
    assert_eq!(v["operation"]["fees"], expected);
}

#[test]
fn bad_fee_tables_are_structure_errors() {
    let out = build_set_txn_fees(Some(DID), Some("{\"1\":\"x\"}"), true, 5);
    assert_eq!(out.ret, ErrorCode::CommonInvalidStructure);
    assert!(out.callback.is_none());
    let out = build_set_txn_fees(Some(DID), Some("not json"), true, 5);
    assert_eq!(out.ret, ErrorCode::CommonInvalidStructure);
    assert!(out.callback.is_none());
}

#[test]
fn payment_envelope_carries_inputs_and_outputs_in_order() {
    let addr = sample_address();
    let inputs = format!(
        "[{{\"address\":\"{}\",\"seqNo\":2}},{{\"address\":\"{}\",\"seqNo\":1}}]",
        addr, addr
    );
    let outputs = format!("[{{\"address\":\"{}\",\"amount\":3}}]", addr);
    let out = build_payment_req(Some(DID), Some(&inputs), Some(&outputs), true, 9);
    assert_eq!(out.ret, ErrorCode::Success);
    let text = out.callback.unwrap().json.unwrap();
    let v: serde_json::Value = serde_json::from_str(&text).unwrap();
    assert_eq!(v["operation"]["type"], serde_json::Value::from("10000"));
    let expected_inputs: serde_json::Value = serde_json::from_str(&inputs).unwrap();
    let expected_outputs: serde_json::Value = serde_json::from_str(&outputs).unwrap();
    assert_eq!(v["operation"]["inputs"], expected_inputs);
    assert_eq!(v["operation"]["outputs"], expected_outputs);
    assert_eq!(v["identifier"], serde_json::Value::from(DID));
}

#[test]
fn empty_payment_lists_are_rejected() {
    let addr = sample_address();
    let outputs = format!("[{{\"address\":\"{}\",\"amount\":3}}]", addr);
    let out = build_payment_req(Some(DID), Some("[]"), Some(&outputs), true, 9);
    assert_eq!(out.ret, ErrorCode::CommonInvalidStructure);
    assert!(out.callback.is_none());
    let inputs = format!("[{{\"address\":\"{}\",\"seqNo\":2}}]", addr);
    let out = build_payment_req(Some(DID), Some(&inputs), Some("[]"), true, 9);
    assert_eq!(out.ret, ErrorCode::CommonInvalidStructure);
    assert!(out.callback.is_none());
}

#[test]
fn amounts_out_of_range_are_structure_errors() {
    let addr = sample_address();
    let ok = format!("[{{\"address\":\"{}\",\"amount\":18446744073709551615}}]", addr);
    let out = build_mint_txn(Some(DID), Some(&ok), true, 1);
    assert_eq!(out.ret, ErrorCode::Success);
    let over = format!("[{{\"address\":\"{}\",\"amount\":18446744073709551616}}]", addr);
    let out = build_mint_txn(Some(DID), Some(&over), true, 1);
    assert_eq!(out.ret, ErrorCode::CommonInvalidStructure);
    assert!(out.callback.is_none());
}

#[test]
fn empty_config_selects_the_empty_seed() {
    assert_eq!(config_from_json("{}").seed, "");
    assert_eq!(config_from_json("{\"seed\":\"\"}").seed, "");
    assert_eq!(config_from_json("{ }").seed, "");
    assert_eq!(config_from_json("").seed, "");
    assert_eq!(config_from_json("{\"seed\":\"000000000000000000000000Wallet01\"}").seed,
        "000000000000000000000000Wallet01");
}

#[test]
fn address_creation_delivers_address_or_invalid_state() {
    let cfg = create_payment_address_prepare(Some("{}"), true).unwrap();
    assert_eq!(cfg.seed, "");
    let key = vec![5u8; 32];
    let cb = create_payment_address_deliver(Some(key.clone()));
    assert_eq!(cb.err, ErrorCode::Success);
    let addr = cb.json.unwrap();
    assert!(addr.starts_with("pay:sov:"));
    assert_eq!(sovtoken::address::decode_address(&addr).unwrap(), key);

    let cb = create_payment_address_deliver(None);
    assert_eq!(cb.err, ErrorCode::CommonInvalidState);
    assert!(cb.json.is_none());

    let cb = create_payment_address_deliver(Some(vec![5u8; 31]));
    assert_eq!(cb.err, ErrorCode::CommonInvalidState);
    assert!(cb.json.is_none());
}

#[test]
fn get_utxo_request_validates_identifier_and_address() {
    let addr = sample_address();
    assert_eq!(
        build_get_utxo_request(Some("BAD"), Some(&addr), true),
        Err(ErrorCode::CommonInvalidParam3)
    );
    assert_eq!(build_get_utxo_request(Some(DID), Some(&addr), true), Ok(()));
    // 21-character identifiers pass the length rule too.
    assert_eq!(
        build_get_utxo_request(Some(&DID[..21]), Some(&addr), true),
        Ok(())
    );
    assert_eq!(
        build_get_utxo_request(Some(DID), Some("pay:sov:junk0"), true),
        Err(ErrorCode::CommonInvalidStructure)
    );
}

#[test]
fn get_utxo_delivery_passes_host_results_through() {
    let out = get_utxo_deliver(Ok(String::from("{\"req\":1}")));
    assert_eq!(out.ret, ErrorCode::Success);
    let cb = out.callback.unwrap();
    assert_eq!(cb.err, ErrorCode::Success);
    assert_eq!(cb.json.as_deref(), Some("{\"req\":1}"));

    let out = get_utxo_deliver(Err(ErrorCode::CommonInvalidState));
    assert_eq!(out.ret, ErrorCode::CommonInvalidState);
    assert!(out.callback.is_none());
}

#[test]
fn request_identifiers_increase_strictly() {
    let mut gen = ReqIdGen::new(100);
    let a = gen.next();
    let b = gen.next();
    let c = gen.next();
    assert!(a < b && b < c);
    assert_eq!((a, b, c), (101, 102, 103));
    let mut tail = ReqIdGen::new(u64::MAX);
    assert!(tail.try_next().is_none());
    assert!(tail.try_next().is_none());
}

#[test]
fn envelopes_from_one_generator_carry_increasing_req_ids() {
    let addr = sample_address();
    let outputs = format!("[{{\"address\":\"{}\",\"amount\":1}}]", addr);
    let mut gen = ReqIdGen::new(500);
    let first = build_mint_txn(Some(DID), Some(&outputs), true, gen.next());
    let second = build_set_txn_fees(Some(DID), Some("{\"1\":1}"), true, gen.next());
    let a: serde_json::Value =
        serde_json::from_str(&first.callback.unwrap().json.unwrap()).unwrap();
    let b: serde_json::Value =
        serde_json::from_str(&second.callback.unwrap().json.unwrap()).unwrap();
    let ra = a["reqId"].as_u64().unwrap();
    let rb = b["reqId"].as_u64().unwrap();
    assert!(ra < rb);
    assert_ne!(ra, rb);
}

#[test]
fn stub_entry_points_succeed_without_callbacks() {
    let out = list_payment_addresses();
    assert_eq!(out.ret, ErrorCode::Success);
    assert!(out.callback.is_none());
    let out = sovtoken::handlers::parse_response_with_fees();
    assert_eq!(out.ret, ErrorCode::Success);
    assert!(out.callback.is_none());
    let out = sovtoken::handlers::parse_payment_response();
    assert_eq!(out.ret, ErrorCode::Success);
    assert!(out.callback.is_none());
    let out = sovtoken::handlers::parse_get_utxo_response();
    assert_eq!(out.ret, ErrorCode::Success);
    assert!(out.callback.is_none());
    let out = sovtoken::handlers::build_get_txn_fees();
    assert_eq!(out.ret, ErrorCode::Success);
    assert!(out.callback.is_none());
    let out = sovtoken::handlers::parse_get_txn_fees_response();
    assert_eq!(out.ret, ErrorCode::Success);
    assert!(out.callback.is_none());
}

#[test]
fn optional_output_and_input_fields_travel_through() {
    let addr = sample_address();
    let inputs = format!(
        "[{{\"address\":\"{}\",\"seqNo\":4,\"signature\":\"sig1\"}}]",
        addr
    );
    let outputs = format!(
        "[{{\"address\":\"{}\",\"amount\":8,\"extra\":\"note\"}}]",
        addr
    );
    let out = build_payment_req(Some(DID), Some(&inputs), Some(&outputs), true, 11);
    assert_eq!(out.ret, ErrorCode::Success);
    let text = out.callback.unwrap().json.unwrap();
    let v: serde_json::Value = serde_json::from_str(&text).unwrap();
    assert_eq!(
        v["operation"]["inputs"][0]["signature"],
        serde_json::Value::from("sig1")
    );
    assert_eq!(
        v["operation"]["outputs"][0]["extra"],
        serde_json::Value::from("note")
    );
}

#[test]
fn wrongly_typed_optional_fields_are_structure_errors() {
    let addr = sample_address();
    let outputs = format!("[{{\"address\":\"{}\",\"amount\":8,\"extra\":5}}]", addr);
    let out = build_mint_txn(Some(DID), Some(&outputs), true, 11);
    assert_eq!(out.ret, ErrorCode::CommonInvalidStructure);
    assert!(out.callback.is_none());
}
