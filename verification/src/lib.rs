//! Resolves raw Ethereum calldata to a function signature and typed
//! parameter values.
//!
//! The crate holds the decisions of the decoder: selector extraction,
//! candidate ranking, the trial-decode loop and the fallback to a verified
//! contract ABI. Network and file access are left to the caller, which feeds
//! their outcomes back in as events.

pub mod abi;
pub mod cache;
pub mod decode;
pub mod display;
pub mod error;
pub mod etherscan;
pub mod pipeline;
pub mod ranking;
pub mod signatures;
pub mod text;
pub mod value;
