use solscan_mcp::requests::token::{TokenPriceMultiRequest, TokenTransferRequest};
use solscan_mcp::{
    build_query, decode_query, lookup, Failure, ParamValue, RequestBundle, ValueKind,
};

const NAMES: [&str; 36] = [
    "chain_info",
    "token_meta",
    "token_meta_multi",
    "token_markets",
    "token_holders",
    "token_list",
    "token_top",
    "token_trending",
    "token_price",
    "token_price_multi",
    "token_transfer",
    "token_defi_activities",
    "account_detail",
    "account_transfer",
    "balance_change",
    "account_defi_activities",
    "account_transactions",
    "account_portfolio",
    "account_token_accounts",
    "account_stake",
    "account_reward_export",
    "account_transfer_export",
    "account_metadata",
    "transaction_detail",
    "transaction_last",
    "transaction_actions",
    "block_last",
    "block_transactions",
    "block_detail",
    "market_list",
    "market_info",
    "market_volume",
    "nft_news",
    "nft_activities",
    "nft_collection_lists",
    "nft_collection_items",
];

fn sample(kind: ValueKind) -> (ParamValue, Vec<String>) {
    match kind {
        ValueKind::Text => (ParamValue::Text("abc".to_string()), vec!["abc".to_string()]),
        ValueKind::Integer => (ParamValue::Integer(-42), vec!["-42".to_string()]),
        ValueKind::Boolean => (ParamValue::Boolean(true), vec!["true".to_string()]),
        ValueKind::TextList => (
            ParamValue::TextList(vec!["a".to_string(), "b".to_string()]),
            vec!["a".to_string(), "b".to_string()],
        ),
        ValueKind::IntegerList => (
            ParamValue::IntegerList(vec![1, 20]),
            vec!["1".to_string(), "20".to_string()],
        ),
    }
}

#[test]
fn every_operation_is_registered_once() {
    for name in NAMES.iter() {
        let op = lookup(name).expect("registered");
        assert_eq!(op.name, *name);
        for (i, p) in op.parameters.iter().enumerate() {
            for q in op.parameters.iter().skip(i + 1) {
                assert_ne!(p.key, q.key);
            }
        }
    }
    assert!(lookup("does_not_exist").is_none());
    assert!(lookup("").is_none());
}

#[test]
fn required_only_bundle_gives_required_keys() {
    for name in NAMES.iter() {
        let op = lookup(name).unwrap();
        let mut bundle = RequestBundle::new();
        let mut expected = Vec::new();
        for p in op.parameters.iter().filter(|p| p.required) {
            let (value, text) = sample(p.kind);
            assert!(bundle.insert(p.key.to_string(), value));
            expected.push((p.key, text));
        }
        let q = build_query(&op, &bundle).unwrap();
        assert_eq!(q.len(), expected.len());
        for (key, text) in expected {
            assert_eq!(q.get(key), Some(&text));
        }
    }
}

#[test]
fn absent_optional_parameter_is_not_in_query() {
    let op = lookup("token_price").unwrap();
    let mut bundle = RequestBundle::new();
    bundle.insert("token_address".to_string(), ParamValue::Text("t".to_string()));
    bundle.insert("to_time".to_string(), ParamValue::Integer(5));
    let q = build_query(&op, &bundle).unwrap();
    assert!(q.get("from_time").is_none());
    assert!(q.pairs().iter().all(|(k, _)| k != "from_time"));
    assert_eq!(q.get("to_time"), Some(&vec!["5".to_string()]));
}

#[test]
fn undeclared_keys_are_dropped() {
    let op = lookup("token_meta").unwrap();
    let mut bundle = RequestBundle::new();
    bundle.insert("token_address".to_string(), ParamValue::Text("t".to_string()));
    bundle.insert("extra".to_string(), ParamValue::Integer(1));
    let q = build_query(&op, &bundle).unwrap();
    assert_eq!(q.pairs(), vec![("token_address".to_string(), "t".to_string())]);
}

#[test]
fn price_multi_over_limit_is_rejected() {
    let address: Vec<String> = (0..25).map(|i| i.to_string()).collect();
    let bundle = TokenPriceMultiRequest { address, from_time: Some(1), to_time: None }.into_bundle();
    let op = lookup("token_price_multi").unwrap();
    match build_query(&op, &bundle) {
        Err(Failure::LimitExceeded { key, limit, actual }) => {
            assert_eq!((key.as_str(), limit, actual), ("address", 20, 25));
        },
        other => panic!("unexpected outcome: {:?}", other),
    }
}

#[test]
fn missing_parameter_comes_before_limit() {
    let op = lookup("token_price_multi").unwrap();
    let bundle = RequestBundle::new();
    match build_query(&op, &bundle) {
        Err(Failure::MissingParameter { key }) => assert_eq!(key, "address"),
        other => panic!("unexpected outcome: {:?}", other),
    }
}

#[test]
fn empty_list_is_present_but_sends_no_pair() {
    let op = lookup("token_meta_multi").unwrap();
    let mut bundle = RequestBundle::new();
    bundle.insert("address".to_string(), ParamValue::TextList(vec![]));
    let q = build_query(&op, &bundle).unwrap();
    assert_eq!(q.len(), 1);
    assert_eq!(q.get("address"), Some(&vec![]));
    assert!(q.pairs().is_empty());
}

#[test]
fn query_reads_back_to_the_bundle() {
    let request = TokenTransferRequest {
        address: "addr".to_string(),
        activity_type: Some(vec!["ACTIVITY_SPL_TRANSFER".to_string()]),
        from: None,
        to: Some("dest".to_string()),
        amount: Some(vec!["1".to_string(), "100".to_string()]),
        block_time: Some(vec![i64::MIN, 0, i64::MAX]),
        exclude_amount_zero: Some(true),
        page: Some(3),
        page_size: Some(i32::MIN),
        sort_by: None,
        sort_order: Some("desc".to_string()),
        value: None,
    };
    let op = lookup("token_transfer").unwrap();
    let bundle = request.into_bundle();
    let q = build_query(&op, &bundle).unwrap();
    let back = decode_query(&op, &q).unwrap();
    assert_eq!(back.len(), bundle.len());
    for p in op.parameters.iter() {
        assert_eq!(format!("{:?}", back.get(p.key)), format!("{:?}", bundle.get(p.key)));
    }
    assert_eq!(
        format!("{:?}", back.get("block_time")),
        format!("{:?}", Some(&ParamValue::IntegerList(vec![i64::MIN, 0, i64::MAX])))
    );
}

#[test]
fn decoding_rejects_malformed_values() {
    let op = lookup("block_detail").unwrap();
    let other = lookup("token_meta").unwrap();
    let mut bundle = RequestBundle::new();
    bundle.insert("token_address".to_string(), ParamValue::Text("x".to_string()));
    let q = build_query(&other, &bundle).unwrap();
    // no `block` entry: the required parameter is simply absent
    let back = decode_query(&op, &q).unwrap();
    assert_eq!(back.len(), 0);

    let mut bundle = RequestBundle::new();
    bundle.insert("block".to_string(), ParamValue::Text("12x".to_string()));
    let q = build_query(&op, &bundle).unwrap();
    assert!(decode_query(&op, &q).is_none());
}

#[test]
fn bundle_keeps_first_value_of_a_key() {
    let mut bundle = RequestBundle::new();
    assert!(bundle.insert("page".to_string(), ParamValue::Integer(1)));
    assert!(!bundle.insert("page".to_string(), ParamValue::Integer(2)));
    assert_eq!(bundle.len(), 1);
    assert_eq!(format!("{:?}", bundle.get("page")), format!("{:?}", Some(&ParamValue::Integer(1))));
}
