//! Kalshi: outcome normalization, market fetching, the WebSocket protocol
//! state and the REST response rules.

pub mod batch;
pub mod catalog;
pub mod error;
pub mod exchange;
pub mod feed;
pub mod fetcher;
pub mod listing;
pub mod market;
pub mod normalize;
pub mod orders;
pub mod portfolio;
pub mod trades;
pub mod ws;
pub mod ws_endpoint;
