//! Resolves an account's token holdings into a priced, deduplicated portfolio.
//!
//! The library holds the decisions of a scan: which tokens a transaction history names, how a
//! provider's answer is read, when a failed call is tried again, which provider prices a token,
//! and what a snapshot adds up to. Network calls, waiting and floating-point display stay with
//! the caller, which feeds each answer back in.

pub mod account;
pub mod cache;
pub mod coingecko;
pub mod discovery;
pub mod erc20;
pub mod error;
pub mod json;
pub mod paraswap;
pub mod portfolio;
pub mod price_provider;
pub mod random;
pub mod rate_limit;
pub mod retry;
pub mod scan;
pub mod text;
