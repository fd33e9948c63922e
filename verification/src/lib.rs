//! Verified core of the Tiger OpenAPI SDK.

pub mod client;
pub mod config;
pub mod duration;
pub mod error;
pub mod model;
pub mod numtext;
pub mod push;
pub mod text;
