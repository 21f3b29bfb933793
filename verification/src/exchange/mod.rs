//! Exchange conventions: symbol formats, wire codes, request signing and URL
//! handling for the supported venues.

pub mod binance;
pub mod bybit;
pub mod crypto;
pub mod hyperliquid;
pub mod okx;
pub mod registry;
pub mod shared;
pub mod symbols;
