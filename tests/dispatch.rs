use solscan_mcp::requests::account::{AccountTokenAccountsRequest, BalanceChangeRequest};
use solscan_mcp::requests::token::{TokenMarketsRequest, TokenMetaMultiRequest, TokenMetaRequest};
use solscan_mcp::{
    classify_response, ChainInfoRequest, Failure, FailureKind, RequestBundle, SolscanApi,
    UpstreamResult,
};

const WSOL: &str = "So11111111111111111111111111111111111111112";

fn api() -> SolscanApi {
    SolscanApi::new("SECRET-REDACTED".to_string())
}

fn pairs_of(req: &solscan_mcp::OutboundRequest) -> Vec<(String, String)> {
    req.query.pairs()
}

#[test]
fn token_meta_routes_to_authenticated_base() {
    let bundle = TokenMetaRequest { token_address: WSOL.to_string() }.into_bundle();
    let req = api().prepare("token_meta", &bundle).unwrap();
    assert_eq!(req.url, "https://pro-api.solscan.io/v2.0/token/meta");
    assert_eq!(pairs_of(&req), vec![("token_address".to_string(), WSOL.to_string())]);
    assert_eq!(req.headers, vec![("token".to_string(), "SECRET-REDACTED".to_string())]);
}

#[test]
fn chain_info_routes_to_public_base() {
    let bundle = ChainInfoRequest {}.into_bundle();
    let req = api().prepare("chain_info", &bundle).unwrap();
    assert_eq!(req.url, "https://public-api.solscan.io/chaininfo");
    assert!(pairs_of(&req).is_empty());
}

#[test]
fn token_meta_multi_over_limit_is_rejected() {
    let address: Vec<String> = (0..21).map(|i| format!("addr{}", i)).collect();
    let bundle = TokenMetaMultiRequest { address }.into_bundle();
    match api().prepare("token_meta_multi", &bundle) {
        Err(Failure::LimitExceeded { key, limit, actual }) => {
            assert_eq!(key, "address");
            assert_eq!(limit, 20);
            assert_eq!(actual, 21);
        },
        other => panic!("unexpected outcome: {:?}", other),
    }
}

#[test]
fn token_meta_multi_at_limit_is_accepted() {
    let address: Vec<String> = (0..20).map(|i| format!("addr{}", i)).collect();
    let bundle = TokenMetaMultiRequest { address: address.clone() }.into_bundle();
    let req = api().prepare("token_meta_multi", &bundle).unwrap();
    assert_eq!(req.url, "https://pro-api.solscan.io/v2.0/token/meta/multi");
    let pairs = pairs_of(&req);
    assert_eq!(pairs.len(), 20);
    for (i, (k, v)) in pairs.iter().enumerate() {
        assert_eq!(k, "address");
        assert_eq!(v, &address[i]);
    }
}

#[test]
fn unknown_operation_is_rejected() {
    let bundle = RequestBundle::new();
    match api().prepare("does_not_exist", &bundle) {
        Err(f) => {
            assert_eq!(f.kind(), FailureKind::UnknownOperation);
            assert_eq!(f.message(), "unknown operation: does_not_exist");
        },
        Ok(_) => panic!("an unknown operation was routed"),
    }
}

#[test]
fn missing_required_parameter_is_rejected() {
    let bundle = RequestBundle::new();
    match api().prepare("token_meta", &bundle) {
        Err(Failure::MissingParameter { key }) => assert_eq!(key, "token_address"),
        other => panic!("unexpected outcome: {:?}", other),
    }
}

#[test]
fn optional_parameters_absent_are_not_sent() {
    let bundle = TokenMarketsRequest {
        token_address: WSOL.to_string(),
        sort_by: None,
        program: None,
        page: Some(2),
        page_size: None,
    }
    .into_bundle();
    let req = api().prepare("token_markets", &bundle).unwrap();
    assert_eq!(
        pairs_of(&req),
        vec![
            ("token_address".to_string(), WSOL.to_string()),
            ("page".to_string(), "2".to_string()),
        ]
    );
    assert!(req.query.get("sort_by").is_none());
    assert!(req.query.get("page_size").is_none());
}

#[test]
fn list_values_are_sent_one_pair_each() {
    let bundle = TokenMarketsRequest {
        token_address: WSOL.to_string(),
        sort_by: Some("volume".to_string()),
        program: Some(vec!["p1".to_string(), "p2".to_string()]),
        page: None,
        page_size: Some(-10),
    }
    .into_bundle();
    let req = api().prepare("token_markets", &bundle).unwrap();
    assert_eq!(
        pairs_of(&req),
        vec![
            ("token_address".to_string(), WSOL.to_string()),
            ("sort_by".to_string(), "volume".to_string()),
            ("program".to_string(), "p1".to_string()),
            ("program".to_string(), "p2".to_string()),
            ("page_size".to_string(), "-10".to_string()),
        ]
    );
}

#[test]
fn balance_change_sends_account_as_address() {
    let bundle = BalanceChangeRequest {
        account: "acct".to_string(),
        token_account: None,
        token: None,
        from_time: Some(1700000000),
        to_time: None,
        page: None,
        page_size: None,
        remove_spam: Some("true".to_string()),
        amount: None,
        flow: None,
        sort_by: None,
        sort_order: None,
        before_tx: None,
    }
    .into_bundle();
    let req = api().prepare("balance_change", &bundle).unwrap();
    assert_eq!(req.url, "https://pro-api.solscan.io/v2.0/account/balance_change");
    assert_eq!(
        pairs_of(&req),
        vec![
            ("address".to_string(), "acct".to_string()),
            ("from_time".to_string(), "1700000000".to_string()),
            ("remove_spam".to_string(), "true".to_string()),
        ]
    );
}

#[test]
fn token_accounts_sends_type_and_boolean() {
    let bundle = AccountTokenAccountsRequest {
        address: "acct".to_string(),
        token_type: "token".to_string(),
        page: None,
        page_size: None,
        hide_zero: Some(false),
    }
    .into_bundle();
    let req = api().prepare("account_token_accounts", &bundle).unwrap();
    assert_eq!(req.url, "https://pro-api.solscan.io/v2.0/account/token-accounts");
    assert_eq!(
        pairs_of(&req),
        vec![
            ("address".to_string(), "acct".to_string()),
            ("type".to_string(), "token".to_string()),
            ("hide_zero".to_string(), "false".to_string()),
        ]
    );
}

#[test]
fn upstream_error_carries_status_and_body() {
    match classify_response(500, Ok("rate limited".to_string())) {
        UpstreamResult::Failure(f) => {
            assert_eq!(f.kind(), FailureKind::UpstreamError);
            assert!(f.message().contains("rate limited"));
            assert_eq!(f.message(), "HTTP 500: rate limited");
        },
        UpstreamResult::Success(_) => panic!("a 500 was taken as success"),
    }
}

#[test]
fn upstream_error_with_unreadable_body() {
    match classify_response(404, Err("connection reset".to_string())) {
        UpstreamResult::Failure(Failure::UpstreamError { status, body }) => {
            assert_eq!(status, 404);
            assert_eq!(body, "Unknown error");
        },
        other => panic!("unexpected outcome: {:?}", other),
    }
}

#[test]
fn non_json_success_body_is_a_decode_error() {
    match classify_response(200, Ok("not json".to_string())) {
        UpstreamResult::Failure(f) => {
            assert_eq!(f.kind(), FailureKind::DecodeError);
            assert!(f.message().starts_with("JSON parsing error: "));
        },
        UpstreamResult::Success(_) => panic!("text that is not JSON was accepted"),
    }
}

#[test]
fn json_success_body_is_passed_through() {
    match classify_response(200, Ok("{\"success\":true,\"data\":[1,2]}".to_string())) {
        UpstreamResult::Success(v) => {
            assert_eq!(v["success"], serde_json::Value::Bool(true));
            assert_eq!(v["data"][1], serde_json::Value::from(2));
        },
        other => panic!("unexpected outcome: {:?}", other),
    }
}

#[test]
fn any_2xx_status_is_success() {
    match classify_response(204, Ok("null".to_string())) {
        UpstreamResult::Success(v) => assert!(v.is_null()),
        other => panic!("unexpected outcome: {:?}", other),
    }
}

#[test]
fn unreadable_success_body_is_a_transport_error() {
    match classify_response(200, Err("timed out".to_string())) {
        UpstreamResult::Failure(f) => {
            assert_eq!(f.kind(), FailureKind::TransportError);
            assert_eq!(f.message(), "HTTP request error: timed out");
        },
        other => panic!("unexpected outcome: {:?}", other),
    }
}

#[test]
fn dispatcher_stays_usable_after_failures() {
    let api = api();
    assert!(api.prepare("does_not_exist", &RequestBundle::new()).is_err());
    assert!(api.prepare("token_meta", &RequestBundle::new()).is_err());
    let bundle = TokenMetaRequest { token_address: WSOL.to_string() }.into_bundle();
    assert!(api.prepare("token_meta", &bundle).is_ok());
}
