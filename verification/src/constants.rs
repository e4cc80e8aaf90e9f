//! Protocol-wide constants shared by the bridge components.

use vstd::prelude::*;

verus! {

/// Extranonce size in bytes assigned to Bitmain-family miners: they
/// receive an empty extranonce and keep the whole 8-byte search space.
pub const EXTRANONCE_SIZE_BITMAIN: u8 = 0;

/// Extranonce size in bytes assigned to every non-Bitmain miner.
pub const EXTRANONCE_SIZE_NON_BITMAIN: u8 = 2;

/// Extranonce2 size for Bitmain miners: with an empty extranonce the
/// miner-chosen part spans all 8 bytes.
pub const BITMAIN_EXTRANONCE2_SIZE: u8 = 8;

/// The two nonce-space partitions together always span 8 bytes.
pub const TOTAL_NONCE_SPACE_BYTES: u8 = 8;

/// Largest extranonce token value: the pool covers `0..=MAX_EXTRANONCE_VALUE`.
pub const MAX_EXTRANONCE_VALUE: u32 = 65535;

/// Number of most recent jobs retained per instance for late-share validation.
pub const MAX_JOBS: usize = 16;

/// Upper bound on how long a fresh job may wait before being pushed to a
/// mining session, in milliseconds.
pub const IMMEDIATE_JOB_DELAY_MS: u64 = 100;

/// Idle timeout after which a silent client session is closed, in seconds.
pub const CLIENT_TIMEOUT_SECS: u64 = 600;

/// Interval between periodic difficulty rebalances, in seconds.
pub const BALANCE_DELAY_SECS: u64 = 30;

/// Size of the per-connection read buffer, in bytes.
pub const READ_BUFFER_SIZE: usize = 4096;

/// Default target rate of accepted shares per minute for VarDiff.
pub const DEFAULT_SHARES_PER_MIN: u32 = 20;

/// Default interval between block-template polls, in milliseconds.
pub const DEFAULT_BLOCK_WAIT_TIME_MS: u64 = 1000;

} // verus!
