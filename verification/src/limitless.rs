//! Limitless: configuration, order amounts and the token registry of its
//! central limit order book, and the socket's subscription payload.

pub mod clob;
pub mod config;
pub mod error;
pub mod http;
pub mod signing;
pub mod ws;
