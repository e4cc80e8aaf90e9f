//! Miner compatibility layer: classifies a connecting client from its
//! announced application string and derives the wire-format parameters
//! of the resulting profile. Classification happens once, at subscribe
//! time; the resolved profile is consulted by value afterwards.

use vstd::prelude::*;

use crate::constants::{EXTRANONCE_SIZE_BITMAIN, EXTRANONCE_SIZE_NON_BITMAIN, TOTAL_NONCE_SPACE_BYTES};
use crate::strutil::{seq_contains_ci, str_contains_ci};

verus! {

/// Resolved vendor classification of a client. Immutable once set at
/// subscribe time.
#[derive(Clone, Copy, PartialEq, Eq, Debug, Structural)]
pub enum MinerProfile {
    /// "godminer", "bitmain" or "antminer" in the application string:
    /// legacy array-encoded jobs, empty extranonce, full JSON-RPC envelope.
    Bitmain,
    /// "iceriver", "icemining" or "icm" in the application string:
    /// single hex-string job encoding, envelope fields omitted.
    IceRiver,
    /// No vendor keyword but the client announced the big-job capability:
    /// single hex-string job encoding in big-endian byte order.
    BzMinerBigJob,
    /// Everything else (Goldshell and the rest): legacy-style array
    /// encoding with the standard envelope.
    Standard,
}

/// The application string names a Bitmain-family miner.
pub open spec fn is_bitmain_app(s: Seq<char>) -> bool {
    ||| seq_contains_ci(s, "godminer"@)
    ||| seq_contains_ci(s, "bitmain"@)
    ||| seq_contains_ci(s, "antminer"@)
}

/// The application string names an IceRiver-family miner.
pub open spec fn is_iceriver_app(s: Seq<char>) -> bool {
    ||| seq_contains_ci(s, "iceriver"@)
    ||| seq_contains_ci(s, "icemining"@)
    ||| seq_contains_ci(s, "icm"@)
}

/// Profile resolved from the application string and the big-job
/// capability flag. A vendor keyword wins over the flag; the flag
/// applies only when no vendor keyword matched.
pub open spec fn profile_for(s: Seq<char>, big_job: bool) -> MinerProfile {
    if is_bitmain_app(s) {
        MinerProfile::Bitmain
    } else if is_iceriver_app(s) {
        MinerProfile::IceRiver
    } else if big_job {
        MinerProfile::BzMinerBigJob
    } else {
        MinerProfile::Standard
    }
}

/// Server-assigned extranonce size in bytes for a profile: Bitmain
/// miners get an empty extranonce, everyone else two bytes.
pub open spec fn extranonce_size_spec(p: MinerProfile) -> u8 {
    if p == MinerProfile::Bitmain {
        EXTRANONCE_SIZE_BITMAIN
    } else {
        EXTRANONCE_SIZE_NON_BITMAIN
    }
}

/// Miner-chosen extranonce2 size in bytes: the two partitions together
/// always span the full 8-byte search space.
pub open spec fn extranonce2_size_spec(extranonce_size: u8) -> u8
    recommends
        extranonce_size <= TOTAL_NONCE_SPACE_BYTES,
{
    (TOTAL_NONCE_SPACE_BYTES - extranonce_size) as u8
}

/// The profile encodes jobs as legacy arrays (rather than one hex string).
pub open spec fn uses_legacy_job_format_spec(p: MinerProfile) -> bool {
    p == MinerProfile::Bitmain || p == MinerProfile::Standard
}

/// The profile's notifications omit the id/jsonrpc envelope fields.
pub open spec fn minimal_notification_spec(p: MinerProfile) -> bool {
    p == MinerProfile::IceRiver
}

/// The profile's hex-string jobs are encoded big-endian.
pub open spec fn big_endian_job_spec(p: MinerProfile) -> bool {
    p == MinerProfile::BzMinerBigJob
}

/// The application string names a Bitmain-family miner (case-insensitive
/// substring match against the three Bitmain keywords).
pub fn is_bitmain_miner(remote_app: &str) -> (r: bool)
    ensures
        r == is_bitmain_app(remote_app@),
{
    str_contains_ci(remote_app, "godminer") || str_contains_ci(remote_app, "bitmain")
        || str_contains_ci(remote_app, "antminer")
}

/// The application string names an IceRiver-family miner.
pub fn is_iceriver_miner(remote_app: &str) -> (r: bool)
    ensures
        r == is_iceriver_app(remote_app@),
{
    str_contains_ci(remote_app, "iceriver") || str_contains_ci(remote_app, "icemining")
        || str_contains_ci(remote_app, "icm")
}

/// Resolves the miner profile once, at subscribe time. Vendor keywords
/// take precedence over the big-job capability flag.
pub fn classify_miner(remote_app: &str, big_job: bool) -> (p: MinerProfile)
    ensures
        p == profile_for(remote_app@, big_job),
{
    if is_bitmain_miner(remote_app) {
        MinerProfile::Bitmain
    } else if is_iceriver_miner(remote_app) {
        MinerProfile::IceRiver
    } else if big_job {
        MinerProfile::BzMinerBigJob
    } else {
        MinerProfile::Standard
    }
}

/// Extranonce size in bytes owed to a profile.
pub fn extranonce_size_of(p: MinerProfile) -> (r: u8)
    ensures
        r == extranonce_size_spec(p),
{
    if matches!(p, MinerProfile::Bitmain) {
        EXTRANONCE_SIZE_BITMAIN
    } else {
        EXTRANONCE_SIZE_NON_BITMAIN
    }
}

/// Extranonce size in bytes owed to a client, straight from its
/// application string.
pub fn required_extranonce_size(remote_app: &str) -> (r: u8)
    ensures
        r == extranonce_size_spec(profile_for(remote_app@, false)),
        is_bitmain_app(remote_app@) ==> r == EXTRANONCE_SIZE_BITMAIN,
        !is_bitmain_app(remote_app@) ==> r == EXTRANONCE_SIZE_NON_BITMAIN,
{
    if is_bitmain_miner(remote_app) {
        EXTRANONCE_SIZE_BITMAIN
    } else {
        EXTRANONCE_SIZE_NON_BITMAIN
    }
}

/// Extranonce2 size from the extranonce size in bytes.
pub fn extranonce2_size_bytes(extranonce_size: u8) -> (r: u8)
    requires
        extranonce_size <= TOTAL_NONCE_SPACE_BYTES,
    ensures
        r == extranonce2_size_spec(extranonce_size),
{
    TOTAL_NONCE_SPACE_BYTES - extranonce_size
}

/// Extranonce2 size from the length of the extranonce in hex characters:
/// an extranonce of L hex characters (L even, at most 16) leaves
/// `8 - L/2` bytes to the miner.
pub fn extranonce2_size_from_hex_len(hex_len: usize) -> (r: u8)
    requires
        hex_len % 2 == 0,
        hex_len <= 16,
    ensures
        r as int == 8 - hex_len / 2,
{
    (TOTAL_NONCE_SPACE_BYTES - (hex_len / 2) as u8) as u8
}

/// The profile's jobs are sent in the legacy array encoding.
pub fn uses_legacy_job_format(p: MinerProfile) -> (r: bool)
    ensures
        r == uses_legacy_job_format_spec(p),
{
    matches!(p, MinerProfile::Bitmain | MinerProfile::Standard)
}

/// The profile's notifications omit the id/jsonrpc envelope fields.
pub fn uses_minimal_notification(p: MinerProfile) -> (r: bool)
    ensures
        r == minimal_notification_spec(p),
{
    matches!(p, MinerProfile::IceRiver)
}

/// The profile's hex-string jobs use big-endian byte order.
pub fn uses_big_endian_job(p: MinerProfile) -> (r: bool)
    ensures
        r == big_endian_job_spec(p),
{
    matches!(p, MinerProfile::BzMinerBigJob)
}

/// The three keywords whose case-insensitive presence in an application
/// string marks a Bitmain-family miner.
pub fn bitmain_keywords() -> (r: Vec<&'static str>)
    ensures
        r@.len() == 3,
        r@[0]@ == "godminer"@,
        r@[1]@ == "bitmain"@,
        r@[2]@ == "antminer"@,
{
    let mut v: Vec<&'static str> = Vec::new();
    v.push("godminer");
    v.push("bitmain");
    v.push("antminer");
    v
}

/// Every application string that names a Bitmain keyword resolves to the
/// Bitmain profile, whatever the big-job flag says, and is owed an empty
/// extranonce with the full 8 bytes left to the miner.
pub proof fn lemma_bitmain_classification(s: Seq<char>, big_job: bool)
    requires
        is_bitmain_app(s),
    ensures
        profile_for(s, big_job) == MinerProfile::Bitmain,
        extranonce_size_spec(profile_for(s, big_job)) == 0,
        extranonce2_size_spec(extranonce_size_spec(profile_for(s, big_job))) == 8,
{
}

/// An IceRiver application string (that matches no Bitmain keyword)
/// resolves to the IceRiver profile, whose notifications omit the
/// envelope fields; a Bitmain string keeps the full envelope.
pub proof fn lemma_notification_shape(s: Seq<char>, big_job: bool)
    ensures
        is_iceriver_app(s) && !is_bitmain_app(s) ==> minimal_notification_spec(
            profile_for(s, big_job),
        ),
        is_bitmain_app(s) ==> !minimal_notification_spec(profile_for(s, big_job)),
{
}

} // verus!
