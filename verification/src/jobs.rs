//! Job registry of one instance: jobs derived from block templates,
//! handed out under monotonically increasing ids, the `MAX_JOBS` most
//! recent retained for late-share validation, with the dedup records of
//! evicted jobs dropped alongside them.

use vstd::prelude::*;

use crate::constants::MAX_JOBS;

verus! {

/// One unit of work derived from a block template.
pub struct Job {
    /// Registry-assigned id, strictly increasing per instance.
    pub id: u64,
    /// Previous-block reference from the template.
    pub prev_block: Vec<u8>,
    /// Compact difficulty target bits of the template.
    pub bits: u32,
    /// Coinbase skeleton of the template.
    pub coinbase: Vec<u8>,
    /// Template timestamp, milliseconds.
    pub timestamp: u64,
}

/// A sequence is strictly increasing.
pub open spec fn strictly_increasing(ids: Seq<u64>) -> bool {
    forall|i: int, j: int| 0 <= i < j < ids.len() ==> ids[i] < ids[j]
}

/// Membership in a pushed sequence.
proof fn lemma_push_contains<T>(s: Seq<T>, v: T, x: T)
    ensures
        s.push(v).contains(x) <==> s.contains(x) || x == v,
{
    if s.push(v).contains(x) {
        let i = choose|i: int| 0 <= i < s.push(v).len() && s.push(v)[i] == x;
        if i < s.len() {
            assert(s[i] == x);
        }
    }
    if s.contains(x) {
        let i = choose|i: int| 0 <= i < s.len() && s[i] == x;
        assert(s.push(v)[i] == x);
    }
    if x == v {
        assert(s.push(v)[s.len() as int] == x);
    }
}

/// A member of a strictly increasing sequence other than its first
/// element stays a member after the first element is dropped.
proof fn lemma_in_drop_first(ids: Seq<u64>, jid: u64)
    requires
        strictly_increasing(ids),
        ids.len() > 0,
        ids.contains(jid),
        jid != ids[0],
    ensures
        ids.drop_first().contains(jid),
{
    let t = choose|t: int| 0 <= t < ids.len() && ids[t] == jid;
    assert(t != 0);
    assert(ids.drop_first()[t - 1] == jid);
}

/// Registry of the retained jobs and of the dedup records of shares
/// already accepted against them.
pub struct JobRegistry {
    jobs: Vec<Job>,
    next_id: u64,
    seen: Vec<(u64, u64, u64)>,
}

impl JobRegistry {
    /// Ids of the retained jobs, oldest first.
    pub closed spec fn job_ids(self) -> Seq<u64> {
        self.jobs@.map(|i: int, j: Job| j.id)
    }

    /// Id the next job will receive.
    pub closed spec fn next_job_id(self) -> u64 {
        self.next_id
    }

    /// The job with this id is retained for validation.
    pub open spec fn is_retained(self, id: u64) -> bool {
        self.job_ids().contains(id)
    }

    /// A share with this (job id, extranonce2, nonce) triple was already
    /// accepted and its dedup record is still retained.
    pub closed spec fn is_seen(self, id: u64, extranonce2: u64, nonce: u64) -> bool {
        self.seen@.contains((id, extranonce2, nonce))
    }

    /// Structural invariant: at most `MAX_JOBS` jobs, ids strictly
    /// increasing and all below the next id, dedup records only for
    /// retained jobs.
    pub closed spec fn wf(self) -> bool {
        &&& self.jobs@.len() <= MAX_JOBS
        &&& strictly_increasing(self.job_ids())
        &&& forall|i: int| 0 <= i < self.jobs@.len() ==> self.jobs@[i].id < self.next_id
        &&& forall|k: int|
            0 <= k < self.seen@.len() ==> self.job_ids().contains(self.seen@[k].0)
    }

    /// An empty registry; the first job gets id 1.
    pub fn new() -> (r: JobRegistry)
        ensures
            r.wf(),
            r.job_ids() == Seq::<u64>::empty(),
            r.next_job_id() == 1,
            forall|id: u64, e2: u64, n: u64| !r.is_seen(id, e2, n),
    {
        let r = JobRegistry { jobs: Vec::new(), next_id: 1, seen: Vec::new() };
        assert(r.job_ids() =~= Seq::<u64>::empty());
        r
    }

    /// Id the next job will receive.
    pub fn upcoming_job_id(&self) -> (r: u64)
        ensures
            r == self.next_job_id(),
    {
        self.next_id
    }

    /// Number of retained jobs.
    pub fn len(&self) -> (r: usize)
        ensures
            r == self.job_ids().len(),
    {
        self.jobs.len()
    }

    /// Index of the retained job with this id.
    pub fn find_job(&self, id: u64) -> (r: Option<usize>)
        ensures
            match r {
                Some(i) => i < self.job_ids().len() && self.job_ids()[i as int] == id,
                None => !self.is_retained(id),
            },
    {
        let mut i: usize = 0;
        while i < self.jobs.len()
            invariant
                i <= self.jobs@.len(),
                forall|k: int| 0 <= k < i ==> self.job_ids()[k] != id,
            decreases self.jobs@.len() - i,
        {
            if self.jobs[i].id == id {
                return Some(i);
            }
            i = i + 1;
        }
        assert(forall|k: int| 0 <= k < self.job_ids().len() ==> self.job_ids()[k] != id);
        None
    }

    /// Borrow of the retained job at an index returned by `find_job`.
    pub fn job_at(&self, i: usize) -> (r: &Job)
        requires
            i < self.job_ids().len(),
        ensures
            r.id == self.job_ids()[i as int],
            r == self.spec_job_at(i as int),
    {
        &self.jobs[i]
    }

    /// The retained job at an index, as a spec value.
    pub closed spec fn spec_job_at(self, i: int) -> Job {
        self.jobs@[i]
    }

    /// Builds a job from a template and retains it. The new job gets the
    /// next id; when the bound was already reached the oldest job is
    /// evicted and its dedup records are dropped with it. Retained ids
    /// stay strictly increasing.
    pub fn add_job(&mut self, prev_block: Vec<u8>, bits: u32, coinbase: Vec<u8>, timestamp: u64)
        -> (id: u64)
        requires
            old(self).wf(),
            old(self).next_job_id() < u64::MAX,
        ensures
            final(self).wf(),
            id == old(self).next_job_id(),
            final(self).next_job_id() == id + 1,
            final(self).job_ids() == (if old(self).job_ids().len() < MAX_JOBS {
                old(self).job_ids().push(id)
            } else {
                old(self).job_ids().drop_first().push(id)
            }),
            final(self).is_retained(id),
            final(self).spec_job_at(final(self).job_ids().len() - 1) == (Job {
                id,
                prev_block,
                bits,
                coinbase,
                timestamp,
            }),
            forall|jid: u64, e2: u64, n: u64|
                final(self).is_seen(jid, e2, n) <==> old(self).is_seen(jid, e2, n)
                    && final(self).is_retained(jid),
    {
        let id = self.next_id;
        let ghost old_ids = old(self).job_ids();
        if self.jobs.len() >= MAX_JOBS {
            let evicted = self.jobs.remove(0);
            self.drop_seen_of(evicted.id);
            proof {
                assert(old_ids.drop_first() =~= self.job_ids());
                // the surviving dedup records reference surviving jobs
                assert forall|k: int|
                    0 <= k < self.seen@.len() implies self.job_ids().contains(
                    self.seen@[k].0,
                ) by {
                    let r = self.seen@[k];
                    let k0 = choose|k0: int|
                        0 <= k0 < old(self).seen@.len() && old(self).seen@[k0] == r;
                    assert(old_ids.contains(old(self).seen@[k0].0));
                    lemma_in_drop_first(old_ids, r.0);
                }
            }
        }
        let ghost mid = *self;
        self.jobs.push(Job { id, prev_block, bits, coinbase, timestamp });
        self.next_id = id + 1;
        proof {
            assert(self.job_ids() =~= mid.job_ids().push(id));
            if old_ids.len() < MAX_JOBS {
                assert(self.job_ids() =~= old_ids.push(id));
            } else {
                assert(self.job_ids() =~= old_ids.drop_first().push(id));
            }
            assert(self.job_ids()[self.job_ids().len() - 1] == id);
            // every id retained before the push is below the new id
            assert forall|t: int| 0 <= t < mid.job_ids().len() implies mid.job_ids()[t] < id by {
                if old_ids.len() < MAX_JOBS {
                    assert(mid.job_ids()[t] == old(self).jobs@[t].id);
                } else {
                    assert(mid.job_ids()[t] == old_ids[t + 1]);
                    assert(old_ids[t + 1] == old(self).jobs@[t + 1].id);
                }
            }
            // dedup records still reference retained jobs
            assert forall|k: int|
                0 <= k < self.seen@.len() implies self.job_ids().contains(self.seen@[k].0) by {
                assert(mid.job_ids().contains(mid.seen@[k].0));
                lemma_push_contains(mid.job_ids(), id, self.seen@[k].0);
            }
            // the dedup set shrank exactly by the evicted job's records
            assert forall|jid: u64, e2: u64, n: u64|
                self.is_seen(jid, e2, n) <==> (old(self).is_seen(jid, e2, n) && self.is_retained(
                    jid,
                )) by {
                lemma_push_contains(mid.job_ids(), id, jid);
                if self.is_seen(jid, e2, n) {
                    let k = choose|k: int|
                        0 <= k < self.seen@.len() && self.seen@[k] == (jid, e2, n);
                    assert(self.job_ids().contains(self.seen@[k].0));
                }
                if old(self).is_seen(jid, e2, n) {
                    let k0 = choose|k0: int|
                        0 <= k0 < old(self).seen@.len() && old(self).seen@[k0] == (jid, e2, n);
                    assert(old_ids.contains(old(self).seen@[k0].0));
                    if old_ids.len() >= MAX_JOBS {
                        if jid != old_ids[0] {
                            assert(mid.is_seen(jid, e2, n));
                        } else {
                            // the evicted first id is below every retained id
                            assert forall|t: int|
                                0 <= t < self.job_ids().len() implies self.job_ids()[t]
                                != jid by {
                                if t < mid.job_ids().len() {
                                    assert(mid.job_ids()[t] == old_ids[t + 1]);
                                    assert(old_ids[0] < old_ids[t + 1]);
                                } else {
                                    assert(self.job_ids()[t] == id);
                                    assert(old(self).jobs@[0].id < id);
                                }
                            }
                            assert(!self.is_retained(jid));
                        }
                    }
                }
            }
        }
        id
    }

    /// Drops every dedup record that references this job id.
    fn drop_seen_of(&mut self, id: u64)
        ensures
            final(self).jobs == old(self).jobs,
            final(self).next_id == old(self).next_id,
            forall|jid: u64, e2: u64, n: u64|
                final(self).is_seen(jid, e2, n) <==> old(self).is_seen(jid, e2, n) && jid != id,
            forall|k: int|
                0 <= k < final(self).seen@.len() ==> old(self).seen@.contains(final(self).seen@[k])
                    && final(self).seen@[k].0 != id,
    {
        let mut kept: Vec<(u64, u64, u64)> = Vec::new();
        let mut i: usize = 0;
        while i < self.seen.len()
            invariant
                self.jobs == old(self).jobs,
                self.next_id == old(self).next_id,
                self.seen == old(self).seen,
                i <= self.seen@.len(),
                forall|r: (u64, u64, u64)|
                    kept@.contains(r) <==> self.seen@.subrange(0, i as int).contains(r) && r.0
                        != id,
            decreases self.seen@.len() - i,
        {
            let r = self.seen[i];
            let ghost pre = kept@;
            if r.0 != id {
                kept.push(r);
            }
            proof {
                assert forall|x: (u64, u64, u64)|
                    self.seen@.subrange(0, i as int + 1).contains(x) <==> (self.seen@.subrange(
                        0,
                        i as int,
                    ).contains(x) || x == self.seen@[i as int]) by {
                    assert(self.seen@.subrange(0, i as int + 1) =~= self.seen@.subrange(
                        0,
                        i as int,
                    ).push(self.seen@[i as int]));
                    lemma_push_contains(
                        self.seen@.subrange(0, i as int),
                        self.seen@[i as int],
                        x,
                    );
                }
                if r.0 != id {
                    assert forall|x: (u64, u64, u64)|
                        kept@.contains(x) <==> pre.contains(x) || x == r by {
                        lemma_push_contains(pre, r, x);
                    }
                }
                assert forall|x: (u64, u64, u64)|
                    kept@.contains(x) <==> (self.seen@.subrange(0, i as int + 1).contains(x)
                        && x.0 != id) by {
                    let s0 = self.seen@.subrange(0, i as int);
                    assert(self.seen@.subrange(0, i as int + 1).contains(x) <==> s0.contains(x)
                        || x == self.seen@[i as int]);
                    if r.0 != id {
                        assert(kept@.contains(x) <==> pre.contains(x) || x == r);
                        assert(pre.contains(x) <==> s0.contains(x) && x.0 != id);
                    } else {
                        assert(kept@ == pre);
                        assert(kept@.contains(x) <==> s0.contains(x) && x.0 != id);
                    }
                }
            }
            i = i + 1;
        }
        proof {
            assert(self.seen@.subrange(0, self.seen@.len() as int) =~= self.seen@);
        }
        self.seen = kept;
        proof {
            assert forall|k: int|
                0 <= k < self.seen@.len() implies old(self).seen@.contains(self.seen@[k])
                && self.seen@[k].0 != id by {
                assert(self.seen@.contains(self.seen@[k]));
            }
            assert forall|jid: u64, e2: u64, n: u64|
                self.is_seen(jid, e2, n) <==> old(self).is_seen(jid, e2, n) && jid != id by {
                assert(self.seen@.contains((jid, e2, n)) <==> old(self).seen@.contains(
                    (jid, e2, n),
                ) && (jid, e2, n).0 != id);
            }
        }
    }

    /// Whether the dedup triple of a share is already recorded.
    pub fn check_seen(&self, id: u64, extranonce2: u64, nonce: u64) -> (r: bool)
        ensures
            r == self.is_seen(id, extranonce2, nonce),
    {
        let mut i: usize = 0;
        while i < self.seen.len()
            invariant
                i <= self.seen@.len(),
                forall|k: int| 0 <= k < i ==> self.seen@[k] != (id, extranonce2, nonce),
            decreases self.seen@.len() - i,
        {
            let t = self.seen[i];
            if t.0 == id && t.1 == extranonce2 && t.2 == nonce {
                assert(self.seen@[i as int] == (id, extranonce2, nonce));
                return true;
            }
            i = i + 1;
        }
        assert(forall|k: int|
            0 <= k < self.seen@.len() ==> self.seen@[k] != (id, extranonce2, nonce));
        false
    }

    /// Records the dedup triple of an accepted share.
    pub fn record_seen(&mut self, id: u64, extranonce2: u64, nonce: u64)
        requires
            old(self).wf(),
            old(self).is_retained(id),
        ensures
            final(self).wf(),
            final(self).job_ids() == old(self).job_ids(),
            final(self).next_job_id() == old(self).next_job_id(),
            forall|jid: u64, e2: u64, n: u64|
                final(self).is_seen(jid, e2, n) <==> old(self).is_seen(jid, e2, n) || (jid, e2, n)
                    == (id, extranonce2, nonce),
    {
        self.seen.push((id, extranonce2, nonce));
        proof {
            assert forall|x: (u64, u64, u64)|
                self.seen@.contains(x) <==> old(self).seen@.contains(x) || x == (
                    id,
                    extranonce2,
                    nonce,
                ) by {
                lemma_push_contains(old(self).seen@, (id, extranonce2, nonce), x);
            }
        }
    }
}

/// Retained job ids are strictly increasing: a session that walks them in
/// registry order never sees an id out of order.
pub proof fn lemma_job_ids_increasing(reg: JobRegistry)
    requires
        reg.wf(),
    ensures
        strictly_increasing(reg.job_ids()),
{
}

/// A job id below the oldest retained id — one evicted by the
/// `MAX_JOBS`-generation window — is not retained.
pub proof fn lemma_old_job_not_retained(reg: JobRegistry, id: u64)
    requires
        reg.wf(),
        reg.job_ids().len() > 0,
        id < reg.job_ids()[0],
    ensures
        !reg.is_retained(id),
{
    assert forall|k: int| 0 <= k < reg.job_ids().len() implies reg.job_ids()[k] != id by {
        if k > 0 {
            assert(reg.job_ids()[0] < reg.job_ids()[k]);
        }
    }
}

} // verus!
