//! Verified core of a prediction-market SDK: connection state, session
//! events, frame decoding and the exchange-side parsing rules.

pub mod crypto;
pub mod errors;
pub mod events;
pub mod json;
pub mod kalshi;
pub mod limitless;
pub mod models;
pub mod number;
pub mod opinion;
pub mod session;
pub mod subscriptions;
pub mod text;
pub mod time;
pub mod ws_decoder;
pub mod ws_state;
