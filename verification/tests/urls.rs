use moralis_gateway::config::Config;
use moralis_gateway::moralis::{
    moralis_call, Endpoint, QueryParams, UpstreamCall, API_KEY_HEADER, ERC20, ERC20_TRANSFERS,
    TRANSFERS,
};

const BASE: &str = "https://deep-index.moralis.io/api/v2/";

#[test]
fn path_segments() {
    assert_eq!(ERC20, "/erc20");
    assert_eq!(ERC20_TRANSFERS, "/erc20/transfers");
    assert_eq!(TRANSFERS, "/transfers");
    assert_eq!(API_KEY_HEADER, "x-api-key");
}

#[test]
fn wallet_balance_url() {
    assert_eq!(
        Endpoint::WalletBalance.url(BASE, "0xABC"),
        "https://deep-index.moralis.io/api/v2/0xABC/erc20"
    );
}

#[test]
fn wallet_transfers_url() {
    assert_eq!(
        Endpoint::WalletTransfers.url(BASE, "0xABC"),
        "https://deep-index.moralis.io/api/v2/0xABC/erc20/transfers"
    );
}

#[test]
fn contract_transfers_url() {
    assert_eq!(
        Endpoint::ContractTransfers.url(BASE, "0xABC"),
        "https://deep-index.moralis.io/api/v2//erc200xABC/transfers"
    );
    assert_eq!(Endpoint::ContractTransfers.url("http://up", "0xABC"), "http://up/erc200xABC/transfers");
}

#[test]
fn url_with_empty_parts() {
    assert_eq!(Endpoint::WalletBalance.url("", ""), "/erc20");
    assert_eq!(Endpoint::WalletTransfers.url("", "a"), "a/erc20/transfers");
    assert_eq!(Endpoint::ContractTransfers.url("b", ""), "b/erc20/transfers");
}

#[test]
fn url_takes_the_address_as_given() {
    assert_eq!(Endpoint::WalletBalance.url("http://up/", "'0x A'"), "http://up/'0x A'/erc20");
}

#[test]
fn call_carries_key_url_and_query() {
    let config = Config::new(BASE, "secret-key");
    let url = String::from("http://up/0x1/erc20");
    let params = QueryParams {
        chain: Some("eth".to_string()),
        format: None,
        offset: Some(5),
        limit: None,
    };
    let call = moralis_call(&config, &url, params.clone());
    assert_eq!(
        call,
        UpstreamCall { url: url.clone(), api_key: "secret-key".to_string(), query: params }
    );
}

#[test]
fn config_keeps_its_settings() {
    let config = Config::new(BASE, "k");
    assert_eq!(config.moralis_base_url, BASE);
    assert_eq!(config.moralis_api_key, "k");
    assert_eq!(config.clone(), config);
}
