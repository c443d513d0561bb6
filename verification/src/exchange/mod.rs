//! The exchange side: request texts for the Binance futures API and their
//! HMAC-SHA256 signatures.
pub mod binance;
pub mod mac;
pub mod types;
