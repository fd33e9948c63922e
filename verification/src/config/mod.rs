//! Configuration: properties files, client settings, dynamic domains and
//! token bookkeeping.

pub mod client_config;
pub mod config_parser;
pub mod domain;
pub mod token_manager;
