//! Request handling: from a caller's payload to the upstream call that
//! answers it.

use crate::body::{json_text, json_text_of, parses_as_json};
use crate::config::{Config, ConfigView};
use crate::error::ApiError;
use crate::quoting::{sanitize, unescaped};
use vstd::prelude::*;
use vstd::utf8::{decode_utf8, valid_utf8};

verus! {

/// A caller's query about one wallet or contract.
#[derive(Debug, PartialEq, Eq)]
pub struct Address {
    /// The wallet or contract asked about, as the caller wrote it.
    pub address: String,
    /// Tuning of the query, as far as the caller supplied it.
    pub options: QueryParams,
}

/// An [`Address`] as plain values.
pub ghost struct AddressView {
    pub address: Seq<char>,
    pub options: QueryParamsView,
}

impl View for Address {
    type V = AddressView;

    open spec fn view(&self) -> AddressView {
        AddressView { address: self.address@, options: self.options@ }
    }
}

/// A query about one token contract.
#[derive(Debug, PartialEq, Eq)]
pub struct Token {
    /// The token contract asked about.
    pub token_address: String,
    /// Tuning of the query.
    pub options: QueryParams,
}

/// A query about one token held by one account.
#[derive(Debug, PartialEq, Eq)]
pub struct AccountToken {
    /// The account that holds the token.
    pub address: String,
    /// The token contract asked about.
    pub token_address: String,
    /// Tuning of the query.
    pub options: QueryParams,
}

/// A query about one item of a token contract.
#[derive(Debug, PartialEq, Eq)]
pub struct TokenId {
    /// The token contract asked about.
    pub token_address: String,
    /// The item within the contract.
    pub id: u64,
    /// Tuning of the query.
    pub options: QueryParams,
}

/// A query about one block.
#[derive(Debug, PartialEq, Eq)]
pub struct BlockNumber {
    /// Height of the block.
    pub block: u64,
    /// Tuning of the query.
    pub options: QueryParams,
}

/// Tuning of an upstream query. A caller may leave any field out.
#[derive(Debug, PartialEq, Eq)]
pub struct QueryParams {
    /// Which blockchain network the query targets.
    pub chain: Option<String>,
    /// How token amounts are written.
    pub format: Option<String>,
    /// How many results to skip.
    pub offset: Option<u64>,
    /// How many results to return at most.
    pub limit: Option<u64>,
}

/// A [`QueryParams`] as plain values.
pub ghost struct QueryParamsView {
    pub chain: Option<Seq<char>>,
    pub format: Option<Seq<char>>,
    pub offset: Option<u64>,
    pub limit: Option<u64>,
}

impl View for QueryParams {
    type V = QueryParamsView;

    open spec fn view(&self) -> QueryParamsView {
        QueryParamsView {
            chain: self.chain.deep_view(),
            format: self.format.deep_view(),
            offset: self.offset,
            limit: self.limit,
        }
    }
}

/// Network queried when the caller names none: Ethereum mainnet.
pub const DEFAULT_CHAIN: &'static str = "eth";

/// Number format used when the caller names none.
pub const DEFAULT_FORMAT: &'static str = "decimal";

/// Results skipped when the caller does not say.
pub const DEFAULT_OFFSET: u64 = 0;

/// Page size when the caller does not say.
pub const DEFAULT_LIMIT: u64 = 500;

impl QueryParamsView {
    /// No field is left unset.
    pub open spec fn is_complete(self) -> bool {
        self.chain.is_some() && self.format.is_some() && self.offset.is_some()
            && self.limit.is_some()
    }

    /// The parameters of a caller who supplied none.
    pub open spec fn absent() -> QueryParamsView {
        QueryParamsView { chain: None, format: None, offset: None, limit: None }
    }

    /// The defaults, all four.
    pub open spec fn defaults() -> QueryParamsView {
        QueryParamsView {
            chain: Some(DEFAULT_CHAIN@),
            format: Some(DEFAULT_FORMAT@),
            offset: Some(DEFAULT_OFFSET),
            limit: Some(DEFAULT_LIMIT),
        }
    }

    /// These parameters with every unset field set to its default.
    pub open spec fn normalized(self) -> QueryParamsView {
        QueryParamsView {
            chain: Some(
                match self.chain {
                    Some(chain) => chain,
                    None => DEFAULT_CHAIN@,
                },
            ),
            format: Some(
                match self.format {
                    Some(format) => format,
                    None => DEFAULT_FORMAT@,
                },
            ),
            offset: Some(
                match self.offset {
                    Some(offset) => offset,
                    None => DEFAULT_OFFSET,
                },
            ),
            limit: Some(
                match self.limit {
                    Some(limit) => limit,
                    None => DEFAULT_LIMIT,
                },
            ),
        }
    }
}

impl Clone for QueryParams {
    fn clone(&self) -> (copy: QueryParams)
        ensures
            copy@ == self@,
    {
        let chain = match &self.chain {
            Some(chain) => Some(chain.clone()),
            None => None,
        };
        let format = match &self.format {
            Some(format) => Some(format.clone()),
            None => None,
        };
        QueryParams { chain, format, offset: self.offset, limit: self.limit }
    }
}

impl QueryParams {
    /// Parameters with nothing supplied.
    pub fn none() -> (params: QueryParams)
        ensures
            params@ == QueryParamsView::absent(),
    {
        QueryParams { chain: None, format: None, offset: None, limit: None }
    }

    /// Whether every field is set.
    pub fn is_complete(&self) -> (complete: bool)
        ensures
            complete == self@.is_complete(),
    {
        self.chain.is_some() && self.format.is_some() && self.offset.is_some()
            && self.limit.is_some()
    }
}

/// Fills every field that the caller left out with its default. A field that
/// the caller supplied is kept as it is.
pub fn check_query_params(params: &QueryParams) -> (filled: QueryParams)
    ensures
        filled@ == params@.normalized(),
        filled@.is_complete(),
{
    let chain = match &params.chain {
        Some(chain) => chain.clone(),
        None => String::from_str(DEFAULT_CHAIN),
    };
    let format = match &params.format {
        Some(format) => format.clone(),
        None => String::from_str(DEFAULT_FORMAT),
    };
    let offset: u64 = match params.offset {
        Some(offset) => offset,
        None => DEFAULT_OFFSET,
    };
    let limit: u64 = match params.limit {
        Some(limit) => limit,
        None => DEFAULT_LIMIT,
    };
    QueryParams { chain: Some(chain), format: Some(format), offset: Some(offset), limit: Some(limit) }
}

/// The upstream operations that the gateway forwards to.
#[derive(Debug, Clone, Copy, PartialEq, Eq, Structural)]
pub enum Endpoint {
    /// ERC-20 balances of a wallet.
    WalletBalance,
    /// ERC-20 transfers into and out of a wallet.
    WalletTransfers,
    /// ERC-20 transfers of a token contract.
    ContractTransfers,
}

/// Path segment shared by all ERC-20 operations.
pub const ERC20: &'static str = "/erc20";

/// Path that follows a wallet address in a transfer query.
pub const ERC20_TRANSFERS: &'static str = "/erc20/transfers";

/// Path that follows a contract address in a transfer query.
pub const TRANSFERS: &'static str = "/transfers";

impl Endpoint {
    /// Where this operation lives upstream for `address`. The two wallet
    /// operations put the address first; a contract's transfers put it
    /// between the two path segments.
    pub open spec fn spec_url(self, base: Seq<char>, address: Seq<char>) -> Seq<char> {
        match self {
            Endpoint::WalletBalance => base + address + ERC20@,
            Endpoint::WalletTransfers => base + address + ERC20_TRANSFERS@,
            Endpoint::ContractTransfers => base + ERC20@ + address + TRANSFERS@,
        }
    }

    /// Builds the upstream URL of this operation for `address`, which goes
    /// into the URL exactly as given.
    pub fn url(self, base: &str, address: &str) -> (url: String)
        ensures
            url@ == self.spec_url(base@, address@),
    {
        let start = String::from_str(base);
        match self {
            Endpoint::WalletBalance => start.concat(address).concat(ERC20),
            Endpoint::WalletTransfers => start.concat(address).concat(ERC20_TRANSFERS),
            Endpoint::ContractTransfers => start.concat(ERC20).concat(address).concat(TRANSFERS),
        }
    }
}

/// Name of the request header that carries the API key.
pub const API_KEY_HEADER: &'static str = "x-api-key";

/// Seconds after which an upstream call that has not answered counts as
/// failed.
pub const UPSTREAM_TIMEOUT_SECS: u64 = 10;

/// One HTTP GET to be sent upstream.
#[derive(Debug, PartialEq, Eq)]
pub struct UpstreamCall {
    /// Target of the request.
    pub url: String,
    /// Value of the [`API_KEY_HEADER`] header.
    pub api_key: String,
    /// Query string of the request, field by field.
    pub query: QueryParams,
}

/// An [`UpstreamCall`] as plain values.
pub ghost struct UpstreamCallView {
    pub url: Seq<char>,
    pub api_key: Seq<char>,
    pub query: QueryParamsView,
}

impl View for UpstreamCall {
    type V = UpstreamCallView;

    open spec fn view(&self) -> UpstreamCallView {
        UpstreamCallView { url: self.url@, api_key: self.api_key@, query: self.query@ }
    }
}

/// The plain-value form of a handler's result.
pub open spec fn planned_view(planned: Result<UpstreamCall, ApiError>) -> Result<
    UpstreamCallView,
    ApiError,
> {
    match planned {
        Ok(call) => Ok(call@),
        Err(error) => Err(error),
    }
}

/// Puts together the call to `url`: the configured key goes into the header,
/// `params` into the query string.
pub fn moralis_call(config: &Config, url: &String, params: QueryParams) -> (call: UpstreamCall)
    ensures
        call@ == (UpstreamCallView { url: url@, api_key: config@.api_key, query: params@ }),
{
    UpstreamCall { url: url.clone(), api_key: config.moralis_api_key.clone(), query: params }
}

/// What is made of an inbound body: its text, where it is a JSON document; a
/// bad request where it is not.
pub open spec fn inbound_text(body: Seq<u8>) -> Result<Seq<char>, ApiError> {
    match json_text_of(body) {
        Some(text) => Ok(text),
        None => Err(ApiError::BadRequest),
    }
}

/// Reads an inbound body before anything else is done with the request. A
/// body that is no JSON document ends the request here.
pub fn read_request(body: &[u8]) -> (text: Result<String, ApiError>)
    ensures
        match text {
            Ok(text) => inbound_text(body@) == Ok::<Seq<char>, ApiError>(text@),
            Err(error) => inbound_text(body@) == Err::<Seq<char>, ApiError>(error),
        },
{
    match json_text(body) {
        Some(text) => Ok(text),
        None => Err(ApiError::BadRequest),
    }
}

/// What a handler answers to `req`, given `clean`, the outcome of unquoting
/// the address.
///
/// An empty address and an address that cannot be unquoted are bad requests.
/// Every other request becomes one call: to the URL of the operation for the
/// unquoted address, with the configured key and with the caller's options
/// filled up by the defaults.
pub open spec fn planned_call(
    endpoint: Endpoint,
    req: AddressView,
    clean: Option<Seq<char>>,
    config: ConfigView,
) -> Result<UpstreamCallView, ApiError> {
    if req.address.len() == 0 {
        Err(ApiError::BadRequest)
    } else {
        match clean {
            None => Err(ApiError::BadRequest),
            Some(address) => Ok(
                UpstreamCallView {
                    url: endpoint.spec_url(config.base_url, address),
                    api_key: config.api_key,
                    query: req.options.normalized(),
                },
            ),
        }
    }
}

/// Plans the upstream call for `req`, whose address unquotes to `clean`
/// (`None`: it does not unquote).
pub fn plan_call(endpoint: Endpoint, req: &Address, clean: Option<String>, config: &Config) -> (planned:
    Result<UpstreamCall, ApiError>)
    ensures
        planned_view(planned) == planned_call(endpoint, req@, clean.deep_view(), config@),
{
    if req.address.as_str().is_empty() {
        return Err(ApiError::BadRequest);
    }
    match clean {
        None => Err(ApiError::BadRequest),
        Some(address) => {
            let url = endpoint.url(config.moralis_base_url.as_str(), address.as_str());
            Ok(moralis_call(config, &url, check_query_params(&req.options)))
        },
    }
}

/// Unquotes the address of `req` and plans the call of `endpoint` for it.
pub fn handle(endpoint: Endpoint, req: &Address, config: &Config) -> (planned: Result<
    UpstreamCall,
    ApiError,
>)
    ensures
        planned_view(planned) == planned_call(endpoint, req@, unescaped(req@.address), config@),
        planned matches Ok(call) ==> call@.query.is_complete(),
{
    let clean = sanitize(req.address.as_str());
    plan_call(endpoint, req, clean, config)
}

/// Plans the query for the ERC-20 balances of the wallet in `req`.
pub fn get_wallet_balance(req: &Address, config: &Config) -> (planned: Result<
    UpstreamCall,
    ApiError,
>)
    ensures
        planned_view(planned) == planned_call(
            Endpoint::WalletBalance,
            req@,
            unescaped(req@.address),
            config@,
        ),
        planned matches Ok(call) ==> call@.query.is_complete(),
{
    handle(Endpoint::WalletBalance, req, config)
}

/// Plans the query for the ERC-20 transfers of the wallet in `req`.
pub fn get_wallet_transfers(req: &Address, config: &Config) -> (planned: Result<
    UpstreamCall,
    ApiError,
>)
    ensures
        planned_view(planned) == planned_call(
            Endpoint::WalletTransfers,
            req@,
            unescaped(req@.address),
            config@,
        ),
        planned matches Ok(call) ==> call@.query.is_complete(),
{
    handle(Endpoint::WalletTransfers, req, config)
}

/// Plans the query for the ERC-20 transfers of the contract in `req`.
pub fn get_contract_transfers(req: &Address, config: &Config) -> (planned: Result<
    UpstreamCall,
    ApiError,
>)
    ensures
        planned_view(planned) == planned_call(
            Endpoint::ContractTransfers,
            req@,
            unescaped(req@.address),
            config@,
        ),
        planned matches Ok(call) ==> call@.query.is_complete(),
{
    handle(Endpoint::ContractTransfers, req, config)
}

/// An inbound body that is not a JSON document is a bad request, and reading
/// it can fail in no other way. A body that is read comes back as its own
/// text.
pub proof fn lemma_malformed_body_is_bad_request(body: Seq<u8>)
    ensures
        !valid_utf8(body) ==> inbound_text(body) == Err::<Seq<char>, ApiError>(
            ApiError::BadRequest,
        ),
        valid_utf8(body) && !parses_as_json(decode_utf8(body)) ==> inbound_text(body) == Err::<
            Seq<char>,
            ApiError,
        >(ApiError::BadRequest),
        inbound_text(body) matches Err(error) ==> error == ApiError::BadRequest,
        inbound_text(body) matches Ok(text) ==> valid_utf8(body) && text == decode_utf8(body)
            && parses_as_json(text),
{
}

/// A request that supplies no options is sent with the defaults: the
/// default network and number format, no offset, and the default page size.
pub proof fn lemma_absent_options_become_defaults(
    endpoint: Endpoint,
    req: AddressView,
    clean: Option<Seq<char>>,
    config: ConfigView,
)
    requires
        req.options == QueryParamsView::absent(),
    ensures
        req.options.normalized() == QueryParamsView::defaults(),
        planned_call(endpoint, req, clean, config) matches Ok(call) ==> call.query
            == QueryParamsView::defaults(),
{
}

/// Filling up touches the missing fields only: a field that the caller
/// supplied passes through unchanged, a field left out gets its default.
pub proof fn lemma_supplied_options_pass_through(params: QueryParamsView)
    ensures
        params.chain is Some ==> params.normalized().chain == params.chain,
        params.format is Some ==> params.normalized().format == params.format,
        params.offset is Some ==> params.normalized().offset == params.offset,
        params.limit is Some ==> params.normalized().limit == params.limit,
        params.chain is None ==> params.normalized().chain == Some(DEFAULT_CHAIN@),
        params.format is None ==> params.normalized().format == Some(DEFAULT_FORMAT@),
        params.offset is None ==> params.normalized().offset == Some(DEFAULT_OFFSET),
        params.limit is None ==> params.normalized().limit == Some(DEFAULT_LIMIT),
{
}

/// Filling up leaves no field unset, changes nothing in parameters that are
/// complete already, and so changes nothing when done twice.
pub proof fn lemma_normalized_is_complete(params: QueryParamsView)
    ensures
        params.normalized().is_complete(),
        params.is_complete() ==> params.normalized() == params,
        params.normalized().normalized() == params.normalized(),
{
}

/// Every call that a handler plans carries fully populated query parameters,
/// the configured key, and the URL of its operation for the unquoted address.
/// A request is answered with such a call exactly if its address is not empty
/// and can be unquoted; every other request is a bad request and plans no
/// call at all.
pub proof fn lemma_planned_call(
    endpoint: Endpoint,
    req: AddressView,
    clean: Option<Seq<char>>,
    config: ConfigView,
)
    ensures
        planned_call(endpoint, req, clean, config) is Ok <==> req.address.len() > 0
            && clean is Some,
        planned_call(endpoint, req, clean, config) matches Ok(call) ==> {
            &&& call.query.is_complete()
            &&& call.query == req.options.normalized()
            &&& call.api_key == config.api_key
            &&& call.url == endpoint.spec_url(config.base_url, clean->0)
        },
        planned_call(endpoint, req, clean, config) matches Err(error) ==> error
            == ApiError::BadRequest,
{
}

/// The URL of a wallet's balances is the base URL, the address and `/erc20`,
/// in this order. The URL of a contract's transfers is the base URL, `/erc20`,
/// the address and `/transfers`.
pub proof fn lemma_url_layout(base: Seq<char>, address: Seq<char>)
    ensures
        Endpoint::WalletBalance.spec_url(base, address) == base + address + ERC20@,
        Endpoint::WalletTransfers.spec_url(base, address) == base + address + ERC20@ + TRANSFERS@,
        Endpoint::ContractTransfers.spec_url(base, address) == base + ERC20@ + address
            + TRANSFERS@,
{
    reveal_strlit("/erc20");
    reveal_strlit("/transfers");
    reveal_strlit("/erc20/transfers");
    assert(ERC20_TRANSFERS@ =~= ERC20@ + TRANSFERS@);
    assert(base + address + ERC20_TRANSFERS@ =~= base + address + ERC20@ + TRANSFERS@);
}

} // verus!
