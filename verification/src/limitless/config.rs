//! Limitless client configuration.

use vstd::prelude::*;

use crate::opinion::config::ExchangeConfig;
use crate::text::owned;

verus! {

/// The Limitless REST base URL.
pub const BASE_URL: &'static str = "https://api.limitless.exchange";

/// The Limitless WebSocket URL.
pub const WS_URL: &'static str = "wss://ws.limitless.exchange";

/// The chain Limitless settles on (Base).
pub const CHAIN_ID: u64 = 8453;

/// How to reach and authenticate with Limitless.
#[derive(Debug, Clone)]
pub struct LimitlessConfig {
    pub base: ExchangeConfig,
    pub api_url: String,
    pub ws_url: String,
    pub private_key: Option<String>,
    pub api_key: Option<String>,
    pub chain_id: u64,
}

impl LimitlessConfig {
    /// The default configuration: the public endpoints, no credentials.
    pub fn new() -> (r: Self)
        ensures
            !r.base.verbose,
            r.api_url@ == BASE_URL@,
            r.ws_url@ == WS_URL@,
            r.private_key is None,
            r.api_key is None,
            r.chain_id == CHAIN_ID,
    {
        LimitlessConfig {
            base: ExchangeConfig { verbose: false },
            api_url: owned(BASE_URL),
            ws_url: owned(WS_URL),
            private_key: None,
            api_key: None,
            chain_id: CHAIN_ID,
        }
    }

    /// The same configuration with another API URL.
    pub fn with_api_url(self, url: &str) -> (r: Self)
        ensures
            r.api_url@ == url@,
            r.base == self.base,
            r.ws_url == self.ws_url,
            r.private_key == self.private_key,
            r.api_key == self.api_key,
            r.chain_id == self.chain_id,
    {
        LimitlessConfig { api_url: owned(url), ..self }
    }

    /// The same configuration with another socket URL.
    pub fn with_ws_url(self, url: &str) -> (r: Self)
        ensures
            r.ws_url@ == url@,
            r.base == self.base,
            r.api_url == self.api_url,
            r.private_key == self.private_key,
            r.api_key == self.api_key,
            r.chain_id == self.chain_id,
    {
        LimitlessConfig { ws_url: owned(url), ..self }
    }

    /// The same configuration with a signing key.
    pub fn with_private_key(self, key: &str) -> (r: Self)
        ensures
            r.private_key matches Some(k) && k@ == key@,
            r.base == self.base,
            r.api_url == self.api_url,
            r.ws_url == self.ws_url,
            r.api_key == self.api_key,
            r.chain_id == self.chain_id,
    {
        LimitlessConfig { private_key: Some(owned(key)), ..self }
    }

    /// The same configuration with an API key.
    pub fn with_api_key(self, key: &str) -> (r: Self)
        ensures
            r.api_key matches Some(k) && k@ == key@,
            r.base == self.base,
            r.api_url == self.api_url,
            r.ws_url == self.ws_url,
            r.private_key == self.private_key,
            r.chain_id == self.chain_id,
    {
        LimitlessConfig { api_key: Some(owned(key)), ..self }
    }

    /// The same configuration with verbose logging on or off.
    pub fn with_verbose(self, verbose: bool) -> (r: Self)
        ensures
            r.base.verbose == verbose,
            r.api_url == self.api_url,
            r.ws_url == self.ws_url,
            r.private_key == self.private_key,
            r.api_key == self.api_key,
            r.chain_id == self.chain_id,
    {
        LimitlessConfig { base: ExchangeConfig { verbose }, ..self }
    }

    /// Trading needs a signing key.
    pub fn is_authenticated(&self) -> (r: bool)
        ensures
            r == self.private_key is Some,
    {
        self.private_key.is_some()
    }
}

} // verus!
