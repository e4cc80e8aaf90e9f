//! Share validation pipeline: a submit is rejected as stale when its job
//! left the retention window, as a duplicate when its (job id,
//! extranonce2, nonce) triple was already accepted, as low-difficulty
//! when its hash misses the session target; otherwise it is accepted,
//! recorded for dedup, and flagged as a block candidate when the hash
//! also meets the network target.

use vstd::prelude::*;

use crate::jobs::{Job, JobRegistry};

verus! {

/// Outcome of one submit request.
#[derive(Clone, Copy, Debug, PartialEq, Eq, Structural)]
pub enum ShareOutcome {
    /// The referenced job is unknown or was evicted.
    Stale,
    /// The triple was already accepted for this job.
    Duplicate,
    /// The hash misses the session's difficulty target.
    LowDifficulty,
    /// The share counts; `block_candidate` says whether the hash also
    /// meets the network target and the block should be submitted.
    Accepted { block_candidate: bool },
}

/// A miner's claimed solution, as plain values.
pub struct ShareSubmission {
    pub job_id: u64,
    pub extranonce2: u64,
    pub nonce: u64,
}

/// A hash meets a difficulty when it is no larger than the target
/// `u64::MAX / difficulty` derived from it.
pub open spec fn meets_difficulty(hash: u64, difficulty: u64) -> bool
    recommends
        difficulty >= 1,
{
    hash as int <= u64::MAX as int / difficulty as int
}

/// The outcome owed to a submit against a registry state: the checks run
/// in the order stale, duplicate, low difficulty, accept.
pub open spec fn submit_outcome(
    reg: JobRegistry,
    sub: ShareSubmission,
    hash: u64,
    session_diff: u64,
    network_diff: u64,
) -> ShareOutcome {
    if !reg.is_retained(sub.job_id) {
        ShareOutcome::Stale
    } else if reg.is_seen(sub.job_id, sub.extranonce2, sub.nonce) {
        ShareOutcome::Duplicate
    } else if !meets_difficulty(hash, session_diff) {
        ShareOutcome::LowDifficulty
    } else {
        ShareOutcome::Accepted { block_candidate: meets_difficulty(hash, network_diff) }
    }
}

/// The hash meets the difficulty target.
pub fn check_difficulty(hash: u64, difficulty: u64) -> (r: bool)
    requires
        difficulty >= 1,
    ensures
        r == meets_difficulty(hash, difficulty),
{
    hash <= u64::MAX / difficulty
}

/// Validates one submit against the registry. Rejections leave the
/// registry unchanged; an accepted share records its dedup triple and
/// changes nothing else.
pub fn process_submit(
    reg: &mut JobRegistry,
    sub: &ShareSubmission,
    hash: u64,
    session_diff: u64,
    network_diff: u64,
) -> (r: ShareOutcome)
    requires
        old(reg).wf(),
        session_diff >= 1,
        network_diff >= 1,
    ensures
        final(reg).wf(),
        r == submit_outcome(*old(reg), *sub, hash, session_diff, network_diff),
        final(reg).job_ids() == old(reg).job_ids(),
        final(reg).next_job_id() == old(reg).next_job_id(),
        r is Accepted ==> forall|jid: u64, e2: u64, n: u64|
            final(reg).is_seen(jid, e2, n) <==> old(reg).is_seen(jid, e2, n) || (jid, e2, n) == (
                sub.job_id,
                sub.extranonce2,
                sub.nonce,
            ),
        !(r is Accepted) ==> *final(reg) == *old(reg),
{
    if reg.find_job(sub.job_id).is_none() {
        return ShareOutcome::Stale;
    }
    if reg.check_seen(sub.job_id, sub.extranonce2, sub.nonce) {
        return ShareOutcome::Duplicate;
    }
    if !check_difficulty(hash, session_diff) {
        return ShareOutcome::LowDifficulty;
    }
    reg.record_seen(sub.job_id, sub.extranonce2, sub.nonce);
    ShareOutcome::Accepted { block_candidate: check_difficulty(hash, network_diff) }
}

/// A share that was accepted leaves its dedup record behind: submitting
/// the identical (job id, extranonce2, nonce) triple again — with any
/// hash and any difficulty — is rejected as a duplicate, as long as the
/// job is still retained.
pub proof fn lemma_duplicate_after_accept(
    reg: JobRegistry,
    sub: ShareSubmission,
    hash: u64,
    session_diff: u64,
    network_diff: u64,
)
    requires
        reg.is_retained(sub.job_id),
        reg.is_seen(sub.job_id, sub.extranonce2, sub.nonce),
    ensures
        submit_outcome(reg, sub, hash, session_diff, network_diff) == ShareOutcome::Duplicate,
{
}

/// A submit whose job id fell out of the `MAX_JOBS`-generation retention
/// window — any id below the oldest retained id — is rejected as stale,
/// whatever its hash and difficulty.
pub proof fn lemma_stale_submit(
    reg: JobRegistry,
    sub: ShareSubmission,
    hash: u64,
    session_diff: u64,
    network_diff: u64,
)
    requires
        reg.wf(),
        reg.job_ids().len() > 0,
        sub.job_id < reg.job_ids()[0],
    ensures
        submit_outcome(reg, sub, hash, session_diff, network_diff) == ShareOutcome::Stale,
{
    crate::jobs::lemma_old_job_not_retained(reg, sub.job_id);
}

/// Big-endian bytes of a 64-bit value.
pub open spec fn u64_be_spec(n: u64) -> Seq<u8> {
    seq![
        ((n >> 56) & 0xff) as u8,
        ((n >> 48) & 0xff) as u8,
        ((n >> 40) & 0xff) as u8,
        ((n >> 32) & 0xff) as u8,
        ((n >> 24) & 0xff) as u8,
        ((n >> 16) & 0xff) as u8,
        ((n >> 8) & 0xff) as u8,
        (n & 0xff) as u8,
    ]
}

/// Big-endian serialization of a 64-bit value.
pub fn u64_be(n: u64) -> (r: Vec<u8>)
    ensures
        r@ == u64_be_spec(n),
{
    let mut r: Vec<u8> = Vec::new();
    r.push(((n >> 56) & 0xff) as u8);
    r.push(((n >> 48) & 0xff) as u8);
    r.push(((n >> 40) & 0xff) as u8);
    r.push(((n >> 32) & 0xff) as u8);
    r.push(((n >> 24) & 0xff) as u8);
    r.push(((n >> 16) & 0xff) as u8);
    r.push(((n >> 8) & 0xff) as u8);
    r.push((n & 0xff) as u8);
    assert(r@ =~= u64_be_spec(n));
    r
}

/// The candidate block header reconstructed from a job template and the
/// session's slice of the nonce space: previous-block reference, then
/// the coinbase skeleton, then the 8 bytes of joint nonce space — the
/// session extranonce (0 or 2 bytes of the token, big-endian), the
/// miner-chosen extranonce2 in the remaining bytes, — then the 8-byte
/// nonce.
pub open spec fn header_spec(job: Job, token: u16, extranonce_size: u8, sub: ShareSubmission)
    -> Seq<u8> {
    job.prev_block@ + job.coinbase@ + (if extranonce_size == 0 {
        Seq::<u8>::empty()
    } else {
        seq![(token / 256) as u8, (token % 256) as u8]
    }) + u64_be_spec(sub.extranonce2).subrange(extranonce_size as int, 8)
        + u64_be_spec(sub.nonce)
}

/// Reconstructs the candidate block header for a submitted share.
pub fn build_header(job: &Job, token: u16, extranonce_size: u8, sub: &ShareSubmission) -> (r: Vec<
    u8,
>)
    requires
        extranonce_size == 0 || extranonce_size == 2,
        extranonce_size == 2 ==> sub.extranonce2 < 0x1000000000000,
    ensures
        r@ == header_spec(*job, token, extranonce_size, *sub),
{
    let mut r: Vec<u8> = Vec::new();
    let mut i: usize = 0;
    while i < job.prev_block.len()
        invariant
            i <= job.prev_block@.len(),
            r@ =~= job.prev_block@.subrange(0, i as int),
        decreases job.prev_block@.len() - i,
    {
        r.push(job.prev_block[i]);
        i = i + 1;
    }
    assert(r@ =~= job.prev_block@);
    let ghost after_prev = r@;
    let mut i: usize = 0;
    while i < job.coinbase.len()
        invariant
            i <= job.coinbase@.len(),
            r@ =~= after_prev + job.coinbase@.subrange(0, i as int),
        decreases job.coinbase@.len() - i,
    {
        r.push(job.coinbase[i]);
        i = i + 1;
    }
    assert(r@ =~= job.prev_block@ + job.coinbase@);
    if extranonce_size == 2 {
        r.push((token / 256) as u8);
        r.push((token % 256) as u8);
    }
    let e2 = u64_be(sub.extranonce2);
    let mut i: usize = extranonce_size as usize;
    let ghost before_e2 = r@;
    while i < 8
        invariant
            extranonce_size <= i <= 8,
            e2@ == u64_be_spec(sub.extranonce2),
            r@ =~= before_e2 + e2@.subrange(extranonce_size as int, i as int),
        decreases 8 - i,
    {
        r.push(e2[i]);
        i = i + 1;
    }
    let mut nb = u64_be(sub.nonce);
    r.append(&mut nb);
    assert(r@ =~= header_spec(*job, token, extranonce_size, *sub));
    r
}

} // verus!
