//! The trait-style decoder family: one decoder type per protocol, each with
//! the same method surface (program id, protocol name, identification,
//! account-count validation, decoding, and a single processing entry point).

pub mod boop;
pub mod meteora_dlmm;
pub mod pump_amm;
pub mod pumpfun;
