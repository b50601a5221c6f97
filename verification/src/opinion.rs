//! Opinion: configuration, market and order parsing, listing rules and the
//! WebSocket protocol state.

pub mod api;
pub mod balance;
pub mod book;
pub mod config;
pub mod fields;
pub mod history;
pub mod listing;
pub mod lookup;
pub mod market;
pub mod orders;
pub mod trades;
pub mod trading;
pub mod ws;
