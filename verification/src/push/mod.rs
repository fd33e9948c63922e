//! Push-channel logic: frame codec, request construction, routing of
//! received messages, subscription bookkeeping and trade-tick decoding.

pub mod proto_message;
pub mod push_client;
pub mod push_message;
pub mod routing;
pub mod subscriptions;
pub mod tick_util;
pub mod varint;
