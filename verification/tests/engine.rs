//! Engine behavior: extranonce allocation, job retention and share
//! validation, variable difficulty, the session state machine, and the
//! end-to-end subscribe flow.

use stratum_service::compat::MinerProfile;
use stratum_service::extranonce::ExtranonceAllocator;
use stratum_service::instance::{job_notification_for, Instance};
use stratum_service::jobs::JobRegistry;
use stratum_service::protocol::{bytes_to_hex, extranonce_hex, MsgValue};
use stratum_service::session::{Session, SessionError, SessionState};
use stratum_service::shares::{process_submit, u64_be, build_header, ShareOutcome, ShareSubmission};
use stratum_service::vardiff::{round_to_pow2, DifficultyState};
use stratum_service::config::BridgeConfig;

fn sample_registry_with_job() -> (JobRegistry, u64) {
    let mut reg = JobRegistry::new();
    let id = reg.add_job(vec![0xaa, 0xbb], 0x1d00ffff, vec![0xcc], 42);
    (reg, id)
}

#[test]
fn allocator_hands_out_distinct_lowest_tokens() {
    let mut alloc = ExtranonceAllocator::new();
    let t0 = alloc.allocate().expect("pool is fresh");
    let t1 = alloc.allocate().expect("pool is fresh");
    let t2 = alloc.allocate().expect("pool is fresh");
    assert_eq!(t0, 0);
    assert_eq!(t1, 1);
    assert_eq!(t2, 2);
    assert_ne!(t0, t1);
    assert_ne!(t1, t2);
    assert!(u32::from(t0) <= 65535 && u32::from(t1) <= 65535 && u32::from(t2) <= 65535);
}

#[test]
fn released_token_becomes_available_again() {
    let mut alloc = ExtranonceAllocator::new();
    let t0 = alloc.allocate().expect("pool is fresh");
    let _t1 = alloc.allocate().expect("pool is fresh");
    alloc.release(t0);
    let again = alloc.allocate().expect("a token was just freed");
    assert_eq!(again, t0, "the freed token is the lowest free one");
}

#[test]
fn stale_submit_outside_retention_window() {
    let mut reg = JobRegistry::new();
    let first_id = reg.add_job(vec![1], 0, vec![], 0);
    // push the first job out of the retention window
    for k in 0..16 {
        reg.add_job(vec![2 + k as u8], 0, vec![], 0);
    }
    let sub = ShareSubmission { job_id: first_id, extranonce2: 7, nonce: 9 };
    let outcome = process_submit(&mut reg, &sub, 0, 1, 1);
    assert_eq!(outcome, ShareOutcome::Stale);
}

#[test]
fn duplicate_submit_is_rejected() {
    let (mut reg, id) = sample_registry_with_job();
    let sub = ShareSubmission { job_id: id, extranonce2: 7, nonce: 9 };
    let first = process_submit(&mut reg, &sub, 0, 1, 1);
    assert!(matches!(first, ShareOutcome::Accepted { .. }));
    let second = process_submit(&mut reg, &sub, 0, 1, 1);
    assert_eq!(second, ShareOutcome::Duplicate);
}

#[test]
fn low_difficulty_submit_is_rejected_and_not_recorded() {
    let (mut reg, id) = sample_registry_with_job();
    let sub = ShareSubmission { job_id: id, extranonce2: 7, nonce: 9 };
    let outcome = process_submit(&mut reg, &sub, u64::MAX, 2, 2);
    assert_eq!(outcome, ShareOutcome::LowDifficulty);
    // the triple was not recorded: a good retry is accepted, not Duplicate
    let retry = process_submit(&mut reg, &sub, 0, 2, 2);
    assert!(matches!(retry, ShareOutcome::Accepted { .. }));
}

#[test]
fn accepted_share_reports_block_candidate() {
    let (mut reg, id) = sample_registry_with_job();
    let sub = ShareSubmission { job_id: id, extranonce2: 1, nonce: 1 };
    // meets session difficulty 1 and network difficulty 1
    let outcome = process_submit(&mut reg, &sub, 123, 1, 1);
    assert_eq!(outcome, ShareOutcome::Accepted { block_candidate: true });
    // meets session difficulty but misses the network target
    let sub2 = ShareSubmission { job_id: id, extranonce2: 2, nonce: 2 };
    let outcome2 = process_submit(&mut reg, &sub2, u64::MAX / 2, 1, 4);
    assert_eq!(outcome2, ShareOutcome::Accepted { block_candidate: false });
}

#[test]
fn vardiff_scales_by_observed_rate() {
    let mut state = DifficultyState::new(1000);
    // 40 accepted shares inside the rolling window
    for i in 0..40u64 {
        state.record_share(10_000 + i);
    }
    // observed 40 against a target of 20 doubles the difficulty
    let d = state.adjust(20_000, 20, 100, false);
    assert_eq!(d, 2000);
    assert_eq!(state.difficulty(), 2000);
}

#[test]
fn vardiff_is_bounded_below_by_min_share_diff() {
    let mut state = DifficultyState::new(1000);
    // no shares at all: the rate ratio drags the difficulty to the floor
    let d = state.adjust(20_000, 20, 128, false);
    assert_eq!(d, 128);
}

#[test]
fn vardiff_pow2_clamp_yields_powers_of_two() {
    let mut state = DifficultyState::new(1000);
    for i in 0..40u64 {
        state.record_share(10_000 + i);
    }
    let d = state.adjust(20_000, 20, 100, true);
    assert!(d >= 1 && d & (d - 1) == 0, "clamped difficulty must be a power of two");
    assert_eq!(d, 2048, "2000 rounds to the nearest power of two");
}

#[test]
fn vardiff_prune_drops_old_timestamps() {
    let mut state = DifficultyState::new(8);
    state.record_share(1_000);
    state.record_share(100_000);
    state.prune(120_000);
    // only the share at 100_000 is still inside the window
    assert_eq!(state.recent_shares(120_000), 1);
}

#[test]
fn round_to_pow2_picks_the_nearest() {
    assert_eq!(round_to_pow2(1), 1);
    assert_eq!(round_to_pow2(16), 16);
    assert_eq!(round_to_pow2(20), 16);
    assert_eq!(round_to_pow2(24), 32);
    assert_eq!(round_to_pow2(65), 64);
}

#[test]
fn godminer_subscribe_end_to_end() {
    let mut alloc = ExtranonceAllocator::new();
    let mut session = Session::new(0);
    let resp = session
        .on_subscribe("GodMiner", false, &mut alloc, 1)
        .expect("subscribe must succeed");
    // exactly [null, "", 8]
    assert_eq!(resp.len(), 3);
    assert_eq!(resp[0], MsgValue::Null);
    assert_eq!(resp[1], MsgValue::Str(String::new()));
    assert_eq!(resp[2], MsgValue::Num(8));
    assert_eq!(session.state, SessionState::Subscribed);
    assert_eq!(session.profile, Some(MinerProfile::Bitmain));
    assert_eq!(session.extranonce, None, "Bitmain sessions hold no token");
}

#[test]
fn iceriver_subscribe_allocates_a_token() {
    let mut alloc = ExtranonceAllocator::new();
    let mut session = Session::new(0);
    let resp = session
        .on_subscribe("IceRiver KS2L", false, &mut alloc, 1)
        .expect("subscribe must succeed");
    assert_eq!(resp.len(), 2);
    assert_eq!(resp[0], MsgValue::Bool(true));
    assert_eq!(session.profile, Some(MinerProfile::IceRiver));
    assert_eq!(session.extranonce, Some(0), "first session gets the lowest token");
}

#[test]
fn session_lifecycle_submit_before_mining_is_rejected() {
    let mut alloc = ExtranonceAllocator::new();
    let mut session = Session::new(0);
    // authorize before subscribe is out of sequence
    let r = session.on_authorize(1);
    assert_eq!(r, Err(SessionError::ProtocolViolation));
    assert_eq!(session.state, SessionState::Closed);
    // the closed session holds no token, closing again releases nothing
    session.close(&mut alloc);
    assert_eq!(session.state, SessionState::Closed);
}

#[test]
fn session_full_lifecycle() {
    let mut alloc = ExtranonceAllocator::new();
    let (mut reg, id) = sample_registry_with_job();
    let mut session = Session::new(0);
    session.on_subscribe("Goldshell", false, &mut alloc, 1).expect("subscribe");
    session.on_authorize(2).expect("authorize");
    session.start_mining(4096).expect("first job is available");
    assert_eq!(session.state, SessionState::Mining);
    let sub = ShareSubmission { job_id: id, extranonce2: 3, nonce: 4 };
    let outcome = session.on_submit(&mut reg, &sub, 0, 1, 5).expect("in Mining");
    assert!(matches!(outcome, ShareOutcome::Accepted { .. }));
    session.close(&mut alloc);
    assert_eq!(session.state, SessionState::Closed);
    assert_eq!(session.extranonce, None);
    // the released token is available again
    let mut fresh = Session::new(9);
    fresh.on_subscribe("Goldshell", false, &mut alloc, 10).expect("subscribe");
    assert_eq!(fresh.extranonce, Some(0));
}

#[test]
fn submit_before_mining_is_protocol_violation() {
    let mut alloc = ExtranonceAllocator::new();
    let (mut reg, id) = sample_registry_with_job();
    let mut session = Session::new(0);
    session.on_subscribe("Goldshell", false, &mut alloc, 1).expect("subscribe");
    // no authorize, no first job: the session is not mining yet
    let sub = ShareSubmission { job_id: id, extranonce2: 1, nonce: 2 };
    let r = session.on_submit(&mut reg, &sub, 0, 1, 3);
    assert_eq!(r, Err(SessionError::ProtocolViolation));
    assert_eq!(session.state, SessionState::Closed);
    // the registry is untouched: the job is still retained, nothing recorded
    assert!(reg.find_job(id).is_some());
    assert!(!reg.check_seen(id, 1, 2));
    session.close(&mut alloc);
}

#[test]
fn pool_exhaustion_rejects_subscribe() {
    let mut alloc = ExtranonceAllocator::new();
    // drain the whole pool
    while alloc.allocate().is_some() {}
    let mut session = Session::new(0);
    let r = session.on_subscribe("Goldshell", false, &mut alloc, 1);
    assert_eq!(r, Err(SessionError::PoolExhausted));
    assert_eq!(session.state, SessionState::Closed);
}

#[test]
fn hex_encoding_is_exact() {
    assert_eq!(bytes_to_hex(&vec![0xde, 0xad, 0xbe, 0xef]).as_str(), "deadbeef");
    assert_eq!(bytes_to_hex(&vec![]).as_str(), "");
    assert_eq!(extranonce_hex(1, 2).as_str(), "0001");
    assert_eq!(extranonce_hex(0xabcd, 2).as_str(), "abcd");
    assert_eq!(extranonce_hex(7, 0).as_str(), "");
}

#[test]
fn u64_be_serializes_big_endian() {
    assert_eq!(u64_be(0x0102030405060708), vec![1, 2, 3, 4, 5, 6, 7, 8]);
    assert_eq!(u64_be(0), vec![0; 8]);
}

#[test]
fn header_layout_is_exact() {
    let (reg, _id) = sample_registry_with_job();
    let job = reg.job_at(0);
    let sub = ShareSubmission { job_id: job.id, extranonce2: 5, nonce: 9 };
    let header = build_header(job, 1, 2, &sub);
    let expected = vec![
        0xaa, 0xbb, // prev_block
        0xcc, // coinbase
        0x00, 0x01, // extranonce token
        0x00, 0x00, 0x00, 0x00, 0x00, 0x05, // extranonce2 in 6 bytes
        0x00, 0x00, 0x00, 0x00, 0x00, 0x00, 0x00, 0x09, // nonce
    ];
    assert_eq!(header, expected);
}

#[test]
fn notifications_follow_the_profile() {
    let mut alloc = ExtranonceAllocator::new();
    let (reg, _id) = sample_registry_with_job();

    let mut ice = Session::new(0);
    ice.on_subscribe("IceRiver KS2L", false, &mut alloc, 1).expect("subscribe");
    let m = job_notification_for(&ice, reg.job_at(0));
    assert!(!m.envelope, "IceRiver notifications omit the envelope fields");
    assert_eq!(m.method.as_str(), "mining.notify");
    assert_eq!(m.params.len(), 1);
    assert_eq!(m.params[0].as_str(), Some("aabbcc"), "single hex string payload");

    let mut god = Session::new(0);
    god.on_subscribe("GodMiner", false, &mut alloc, 1).expect("subscribe");
    let m2 = job_notification_for(&god, reg.job_at(0));
    assert!(m2.envelope, "Bitmain notifications keep the full envelope");
    assert_eq!(m2.params.len(), 2);
    assert_eq!(m2.params[0].as_u64(), Some(reg.job_at(0).id));
    assert_eq!(m2.params[1].as_str(), Some("aabbcc"));

    let mut bz = Session::new(0);
    bz.on_subscribe("BzMiner", true, &mut alloc, 1).expect("subscribe");
    let m3 = job_notification_for(&bz, reg.job_at(0));
    assert!(m3.envelope);
    assert_eq!(m3.params.len(), 1);
    assert_eq!(m3.params[0].as_str(), Some("ccbbaa"), "big-endian payload is reversed");
}

#[test]
fn instance_composes_allocator_and_registry() {
    let config = BridgeConfig {
        stratum_port: ":5555".to_string(),
        kaspad_address: "localhost:16110".to_string(),
        print_stats: true,
        log_to_file: false,
        block_wait_time_ms: 1000,
        min_share_diff: 8192,
        var_diff: true,
        shares_per_min: 20,
        var_diff_stats: false,
        extranonce_size: 0,
        pow2_clamp: false,
    };
    let mut inst = Instance::new(config);
    let id1 = inst.handle_template(vec![1], 0, vec![], 0);
    let id2 = inst.handle_template(vec![2], 0, vec![], 0);
    assert_eq!(id2, id1 + 1, "job ids increase monotonically");
    assert!(inst.registry.find_job(id1).is_some());
}
