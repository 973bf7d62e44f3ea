//! Verified core of the quote infrastructure: configuration parsing, cache
//! keys, log file naming, the currency feed and the quote inquiry protocol.

pub mod cache;
pub mod config;
pub mod decimal;
pub mod feed;
pub mod inquiry;
pub mod logger;
