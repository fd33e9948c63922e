//! Data models: enums, request bodies, response records, order and option
//! helpers.

pub mod enums;
pub mod order;
pub mod quote;
pub mod quote_requests;
pub mod serde_helpers;
pub mod trade;
pub mod trade_requests;
