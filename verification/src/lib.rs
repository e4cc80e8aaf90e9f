//! Verified core of a Stratum mining bridge: miner-compatibility
//! classification, extranonce allocation, job registry and share
//! validation, variable-difficulty control, the per-connection session
//! state machine, and layered configuration resolution.

pub mod compat;
pub mod config;
pub mod constants;
pub mod extranonce;
pub mod instance;
pub mod jobs;
pub mod protocol;
pub mod service;
pub mod session;
pub mod shares;
pub mod vardiff;
pub mod yaml;
pub mod strutil;

use vstd::prelude::*;

verus! {

} // verus!
