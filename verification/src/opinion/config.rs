//! Opinion client configuration.

use vstd::prelude::*;

use crate::models::ExchangeInfo;
use crate::text::owned;

verus! {

/// The Opinion REST base URL.
pub const BASE_URL: &'static str = "https://openapi.opinion.trade";

/// The Opinion WebSocket base URL.
pub const WS_URL: &'static str = "wss://ws.opinion.trade";

/// The chain Opinion settles on (BNB Smart Chain).
pub const CHAIN_ID: u64 = 56;

/// Settings shared by every exchange client.
#[derive(Debug, Clone)]
pub struct ExchangeConfig {
    pub verbose: bool,
}

/// How to reach and authenticate with Opinion.
#[derive(Debug, Clone)]
pub struct OpinionConfig {
    pub base: ExchangeConfig,
    pub api_url: String,
    pub ws_url: String,
    pub api_key: Option<String>,
    pub private_key: Option<String>,
    pub multi_sig_addr: Option<String>,
    pub chain_id: u64,
}

impl OpinionConfig {
    /// The default configuration: the public API, no credentials.
    pub fn new() -> (r: Self)
        ensures
            !r.base.verbose,
            r.api_url@ == BASE_URL@,
            r.ws_url@ == WS_URL@,
            r.api_key is None,
            r.private_key is None,
            r.multi_sig_addr is None,
            r.chain_id == CHAIN_ID,
    {
        OpinionConfig {
            base: ExchangeConfig { verbose: false },
            api_url: owned(BASE_URL),
            ws_url: owned(WS_URL),
            api_key: None,
            private_key: None,
            multi_sig_addr: None,
            chain_id: CHAIN_ID,
        }
    }

    /// The same configuration with another API URL.
    pub fn with_api_url(self, url: &str) -> (r: Self)
        ensures
            r.api_url@ == url@,
            r.base == self.base,
            r.ws_url == self.ws_url,
            r.api_key == self.api_key,
            r.private_key == self.private_key,
            r.multi_sig_addr == self.multi_sig_addr,
            r.chain_id == self.chain_id,
    {
        OpinionConfig { api_url: owned(url), ..self }
    }

    /// The same configuration with an API key.
    pub fn with_api_key(self, key: &str) -> (r: Self)
        ensures
            r.api_key matches Some(k) && k@ == key@,
            r.base == self.base,
            r.api_url == self.api_url,
            r.ws_url == self.ws_url,
            r.private_key == self.private_key,
            r.multi_sig_addr == self.multi_sig_addr,
            r.chain_id == self.chain_id,
    {
        OpinionConfig { api_key: Some(owned(key)), ..self }
    }

    /// The same configuration with a signing key.
    pub fn with_private_key(self, key: &str) -> (r: Self)
        ensures
            r.private_key matches Some(k) && k@ == key@,
            r.base == self.base,
            r.api_url == self.api_url,
            r.ws_url == self.ws_url,
            r.api_key == self.api_key,
            r.multi_sig_addr == self.multi_sig_addr,
            r.chain_id == self.chain_id,
    {
        OpinionConfig { private_key: Some(owned(key)), ..self }
    }

    /// The same configuration with a multi-signature wallet address.
    pub fn with_multi_sig(self, addr: &str) -> (r: Self)
        ensures
            r.multi_sig_addr matches Some(a) && a@ == addr@,
            r.base == self.base,
            r.api_url == self.api_url,
            r.ws_url == self.ws_url,
            r.api_key == self.api_key,
            r.private_key == self.private_key,
            r.chain_id == self.chain_id,
    {
        OpinionConfig { multi_sig_addr: Some(owned(addr)), ..self }
    }

    /// The same configuration with verbose logging on or off.
    pub fn with_verbose(self, verbose: bool) -> (r: Self)
        ensures
            r.base.verbose == verbose,
            r.api_url == self.api_url,
            r.ws_url == self.ws_url,
            r.api_key == self.api_key,
            r.private_key == self.private_key,
            r.multi_sig_addr == self.multi_sig_addr,
            r.chain_id == self.chain_id,
    {
        OpinionConfig { base: ExchangeConfig { verbose }, ..self }
    }

    /// Authenticated requests need an API key.
    pub fn is_authenticated(&self) -> (r: bool)
        ensures
            r == self.api_key is Some,
    {
        self.api_key.is_some()
    }
}

/// What the Opinion client offers under `config`: orders, cancellations
/// and the socket need an API key; the reads are always there; approvals,
/// balance refresh, order book history, server time, lineage and the
/// batched calls are not offered.
pub fn describe(config: &OpinionConfig) -> (r: ExchangeInfo)
    ensures
        r.id@ == "opinion"@,
        r.name@ == "Opinion"@,
        r.has_create_order == config.api_key is Some,
        r.has_cancel_order == config.api_key is Some,
        r.has_websocket == config.api_key is Some,
        r.has_fetch_markets && r.has_fetch_positions && r.has_fetch_balance && r.has_fetch_orderbook,
        r.has_fetch_price_history && r.has_fetch_trades && r.has_fetch_user_activity && r.has_fetch_fills,
        !r.has_approvals && !r.has_refresh_balance && !r.has_fetch_orderbook_history,
        !r.has_fetch_server_time && !r.has_fetch_market_lineage && !r.has_fetch_orderbooks_batch,
        !r.has_cancel_all_orders && !r.has_create_orders_batch,
{
    let authed = config.is_authenticated();
    ExchangeInfo {
        id: owned("opinion"),
        name: owned("Opinion"),
        has_fetch_markets: true,
        has_create_order: authed,
        has_cancel_order: authed,
        has_fetch_positions: true,
        has_fetch_balance: true,
        has_fetch_orderbook: true,
        has_fetch_price_history: true,
        has_fetch_trades: true,
        has_fetch_user_activity: true,
        has_fetch_fills: true,
        has_fetch_server_time: false,
        has_approvals: false,
        has_refresh_balance: false,
        has_websocket: authed,
        has_fetch_orderbook_history: false,
        has_fetch_market_lineage: false,
        has_fetch_orderbooks_batch: false,
        has_cancel_all_orders: false,
        has_create_orders_batch: false,
    }
}

} // verus!
