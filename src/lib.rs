//! A single persisted `u32` counter with four mutations and one query.
//!
//! Every operation is a pure transition: it takes the value that storage
//! holds (`None` before initialization) and returns the value to persist
//! together with the `cosmwasm_std::Response` that the host emits.

pub mod contract;
pub mod decimal;
pub mod laws;
pub mod msg;
pub mod response;
