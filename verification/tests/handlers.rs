use moralis_gateway::config::Config;
use moralis_gateway::error::ApiError;
use moralis_gateway::moralis::{
    get_contract_transfers, get_wallet_balance, get_wallet_transfers, handle, plan_call,
    read_request, Address, Endpoint, QueryParams, UpstreamCall,
};
use moralis_gateway::quoting::sanitize;

fn config() -> Config {
    Config::new("http://up/", "key-1")
}

fn request(address: &str) -> Address {
    Address { address: address.to_string(), options: QueryParams::none() }
}

fn defaults() -> QueryParams {
    QueryParams {
        chain: Some("eth".to_string()),
        format: Some("decimal".to_string()),
        offset: Some(0),
        limit: Some(500),
    }
}

fn call(url: &str) -> Result<UpstreamCall, ApiError> {
    Ok(UpstreamCall { url: url.to_string(), api_key: "key-1".to_string(), query: defaults() })
}

#[test]
fn wallet_balance_call() {
    assert_eq!(get_wallet_balance(&request("0xABC"), &config()), call("http://up/0xABC/erc20"));
}

#[test]
fn wallet_transfers_call() {
    assert_eq!(
        get_wallet_transfers(&request("0xABC"), &config()),
        call("http://up/0xABC/erc20/transfers")
    );
}

#[test]
fn contract_transfers_call() {
    assert_eq!(
        get_contract_transfers(&request("0xABC"), &config()),
        call("http://up//erc200xABC/transfers")
    );
}

#[test]
fn handlers_agree_with_handle() {
    let req = request("0x1");
    let cfg = config();
    assert_eq!(get_wallet_balance(&req, &cfg), handle(Endpoint::WalletBalance, &req, &cfg));
    assert_eq!(get_wallet_transfers(&req, &cfg), handle(Endpoint::WalletTransfers, &req, &cfg));
    assert_eq!(get_contract_transfers(&req, &cfg), handle(Endpoint::ContractTransfers, &req, &cfg));
}

#[test]
fn supplied_options_reach_the_call() {
    let req = Address {
        address: "0xABC".to_string(),
        options: QueryParams {
            chain: Some("polygon".to_string()),
            format: None,
            offset: None,
            limit: Some(10),
        },
    };
    let planned = get_wallet_balance(&req, &config()).unwrap();
    assert_eq!(
        planned.query,
        QueryParams {
            chain: Some("polygon".to_string()),
            format: Some("decimal".to_string()),
            offset: Some(0),
            limit: Some(10),
        }
    );
    assert!(planned.query.is_complete());
}

#[test]
fn single_quotes_are_removed_from_the_address() {
    assert_eq!(get_wallet_balance(&request("'0xABC'"), &config()), call("http://up/0xABC/erc20"));
}

#[test]
fn escapes_between_double_quotes_are_replaced() {
    assert_eq!(
        get_wallet_balance(&request("\"0x\\u{41}BC\""), &config()),
        call("http://up/0xABC/erc20")
    );
}

#[test]
fn empty_address_is_a_bad_request() {
    let cfg = config();
    assert_eq!(get_wallet_balance(&request(""), &cfg), Err(ApiError::BadRequest));
    assert_eq!(get_wallet_transfers(&request(""), &cfg), Err(ApiError::BadRequest));
    assert_eq!(get_contract_transfers(&request(""), &cfg), Err(ApiError::BadRequest));
}

#[test]
fn unknown_escape_is_a_bad_request() {
    let cfg = config();
    assert_eq!(get_wallet_balance(&request("\"\\x\""), &cfg), Err(ApiError::BadRequest));
    assert_eq!(get_wallet_transfers(&request("\"0x\\"), &cfg), Err(ApiError::BadRequest));
    assert_eq!(get_contract_transfers(&request("\"\\u{110000}\""), &cfg), Err(ApiError::BadRequest));
}

#[test]
fn plan_call_for_each_unquoting_outcome() {
    let cfg = config();
    assert_eq!(
        plan_call(Endpoint::WalletBalance, &request("raw"), Some("clean".to_string()), &cfg),
        call("http://up/clean/erc20")
    );
    assert_eq!(
        plan_call(Endpoint::WalletBalance, &request("raw"), None, &cfg),
        Err(ApiError::BadRequest)
    );
    assert_eq!(
        plan_call(Endpoint::WalletBalance, &request(""), Some("clean".to_string()), &cfg),
        Err(ApiError::BadRequest)
    );
    assert_eq!(
        plan_call(Endpoint::WalletTransfers, &request("raw"), Some(String::new()), &cfg),
        call("http://up//erc20/transfers")
    );
}

#[test]
fn sanitize_unquotes() {
    assert_eq!(sanitize("0xABC"), Some("0xABC".to_string()));
    assert_eq!(sanitize("'a b'"), Some("a b".to_string()));
    assert_eq!(sanitize("\"new\\nline\""), Some("new\nline".to_string()));
    assert_eq!(sanitize("back\\slash"), Some("back\\slash".to_string()));
    assert_eq!(sanitize(""), Some(String::new()));
    assert_eq!(sanitize("\"\\q\""), None);
}

#[test]
fn inbound_json_is_read_as_it_stands() {
    let body = b"{ \"address\": \"0xABC\",\n  \"options\": {} }";
    assert_eq!(
        read_request(body),
        Ok("{ \"address\": \"0xABC\",\n  \"options\": {} }".to_string())
    );
}

#[test]
fn malformed_inbound_body_is_a_bad_request() {
    assert_eq!(read_request(b"{\"address\": "), Err(ApiError::BadRequest));
    assert_eq!(read_request(b"address=0xABC"), Err(ApiError::BadRequest));
    assert_eq!(read_request(b""), Err(ApiError::BadRequest));
    assert_eq!(read_request(b"{} {}"), Err(ApiError::BadRequest));
    assert_eq!(read_request(&[b'"', 0xff, b'"']), Err(ApiError::BadRequest));
}
