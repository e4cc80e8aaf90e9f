//! One bridge instance: its effective configuration, its extranonce
//! pool and its job registry. Sessions are owned by their connection
//! tasks and borrow the instance's shared state briefly, never across a
//! network operation.

use vstd::prelude::*;

use crate::compat::minimal_notification_spec;
use crate::config::BridgeConfig;
use crate::extranonce::ExtranonceAllocator;
use crate::jobs::{Job, JobRegistry};
use crate::protocol::{build_notify, encode_job_params, job_params_spec, NotifyMessage};
use crate::session::Session;

verus! {

/// Shared state of one stratum listener.
pub struct Instance {
    /// Effective configuration the instance runs with.
    pub config: BridgeConfig,
    /// Pool of extranonce tokens for this instance's sessions.
    pub alloc: ExtranonceAllocator,
    /// Jobs retained for validation, with their dedup records.
    pub registry: JobRegistry,
}

impl Instance {
    /// Structural invariant of the instance's shared state.
    pub open spec fn wf(self) -> bool {
        &&& self.alloc.wf()
        &&& self.registry.wf()
        &&& self.config.min_share_diff >= 1
    }

    /// A fresh instance: every extranonce token free, no job retained.
    pub fn new(config: BridgeConfig) -> (r: Instance)
        requires
            config.min_share_diff >= 1,
        ensures
            r.wf(),
            r.config == config,
            r.alloc.held() == Set::<int>::empty(),
            r.registry.job_ids() == Seq::<u64>::empty(),
    {
        Instance { config, alloc: ExtranonceAllocator::new(), registry: JobRegistry::new() }
    }

    /// Takes a fanned-out block template into the registry as the next
    /// job, evicting past the retention bound.
    pub fn handle_template(
        &mut self,
        prev_block: Vec<u8>,
        bits: u32,
        coinbase: Vec<u8>,
        timestamp: u64,
    ) -> (id: u64)
        requires
            old(self).wf(),
            old(self).registry.next_job_id() < u64::MAX,
        ensures
            final(self).wf(),
            final(self).config == old(self).config,
            final(self).alloc == old(self).alloc,
            id == old(self).registry.next_job_id(),
            final(self).registry.is_retained(id),
            final(self).registry.next_job_id() == id + 1,
            final(self).registry.spec_job_at(final(self).registry.job_ids().len() - 1) == (Job {
                id,
                prev_block,
                bits,
                coinbase,
                timestamp,
            }),
    {
        self.registry.add_job(prev_block, bits, coinbase, timestamp)
    }
}

/// The pre-nonce job payload pushed to miners: the previous-block
/// reference followed by the coinbase skeleton.
pub open spec fn job_payload_spec(job: Job) -> Seq<u8> {
    job.prev_block@ + job.coinbase@
}

/// Serializes the pre-nonce payload of a job.
pub fn job_payload(job: &Job) -> (r: Vec<u8>)
    ensures
        r@ == job_payload_spec(*job),
{
    let mut r: Vec<u8> = Vec::new();
    let mut i: usize = 0;
    while i < job.prev_block.len()
        invariant
            i <= job.prev_block@.len(),
            r@ =~= job.prev_block@.subrange(0, i as int),
        decreases job.prev_block@.len() - i,
    {
        r.push(job.prev_block[i]);
        i = i + 1;
    }
    assert(r@ =~= job.prev_block@);
    let ghost after_prev = r@;
    let mut i: usize = 0;
    while i < job.coinbase.len()
        invariant
            i <= job.coinbase@.len(),
            r@ =~= after_prev + job.coinbase@.subrange(0, i as int),
        decreases job.coinbase@.len() - i,
    {
        r.push(job.coinbase[i]);
        i = i + 1;
    }
    assert(r@ =~= job_payload_spec(*job));
    r
}

/// Encodes a job notification for one mining session, in that session's
/// profile-specific wire format: the profile decides both the payload
/// encoding and whether the envelope fields appear.
pub fn job_notification_for(session: &Session, job: &Job) -> (m: NotifyMessage)
    requires
        session.profile is Some,
    ensures
        ({
            let p = session.profile.unwrap();
            &&& m.envelope == !minimal_notification_spec(p)
            &&& m.method@ == "mining.notify"@
            &&& job_params_spec(m.params@, p, job.id, job_payload_spec(*job))
        }),
{
    let p = match session.profile {
        Some(p) => p,
        None => {
            proof {
                assert(false);
            }
            crate::compat::MinerProfile::Standard
        },
    };
    let payload = job_payload(job);
    let params = encode_job_params(p, job.id, &payload);
    build_notify(p, String::from_str("mining.notify"), params)
}

} // verus!
