//! Per-connection session state machine: `Connected → Subscribed →
//! Authorized → Mining`, with `Closed` terminal and reachable from every
//! state on a protocol error, idle timeout or disconnect. Submissions
//! before `Mining` are protocol errors.

use vstd::prelude::*;

use crate::compat::{classify_miner, extranonce_size_of, profile_for, MinerProfile};
use crate::constants::CLIENT_TIMEOUT_SECS;
use crate::extranonce::ExtranonceAllocator;
use crate::jobs::JobRegistry;
use crate::protocol::{extranonce_hex, extranonce_hex_spec, subscribe_response, subscribe_response_spec, MsgValue};
use crate::shares::{process_submit, submit_outcome, ShareOutcome, ShareSubmission};
use crate::vardiff::DifficultyState;

verus! {

/// Lifecycle state of one client connection.
#[derive(Clone, Copy, Debug, PartialEq, Eq, Structural)]
pub enum SessionState {
    Connected,
    Subscribed,
    Authorized,
    Mining,
    Closed,
}

/// Session-level failures that close or reject the session.
#[derive(Clone, Copy, Debug, PartialEq, Eq, Structural)]
pub enum SessionError {
    /// Malformed or out-of-sequence client message; the session closes.
    ProtocolViolation,
    /// No extranonce token was left at subscribe time; the session is
    /// rejected and never reaches `Mining`.
    PoolExhausted,
}

/// One client connection, owned exclusively by its connection task.
pub struct Session {
    /// Lifecycle state.
    pub state: SessionState,
    /// Vendor profile, resolved exactly once at subscribe time.
    pub profile: Option<MinerProfile>,
    /// Extranonce token held from the instance pool, if any.
    pub extranonce: Option<u16>,
    /// Per-session difficulty state driven by the VarDiff controller.
    pub diff: DifficultyState,
    /// Timestamp of the last inbound client activity, milliseconds.
    pub last_activity: u64,
}

impl Session {
    /// Structural invariant: the difficulty state is usable and a
    /// session that never subscribed has neither profile nor
    /// extranonce. A held token survives the transition to `Closed`
    /// until `close` returns it to the pool.
    pub open spec fn wf(self) -> bool {
        &&& self.diff.wf()
        &&& self.state is Connected ==> self.profile is None && self.extranonce is None
    }

    /// A fresh session for a connection accepted at `now`.
    pub fn new(now: u64) -> (r: Session)
        ensures
            r.wf(),
            r.state is Connected,
            r.profile is None,
            r.extranonce is None,
            r.last_activity == now,
    {
        Session {
            state: SessionState::Connected,
            profile: None,
            extranonce: None,
            diff: DifficultyState::new(1),
            last_activity: now,
        }
    }

    /// Handles a subscribe request: resolves the profile from the
    /// announced application string, assigns an extranonce token sized
    /// per profile (none for Bitmain), and returns the profile-specific
    /// subscribe response. A subscribe in any state but `Connected` is a
    /// protocol violation and closes the session; an exhausted pool
    /// rejects the session.
    pub fn on_subscribe(
        &mut self,
        remote_app: &str,
        big_job: bool,
        alloc: &mut ExtranonceAllocator,
        now: u64,
    ) -> (r: Result<Vec<MsgValue>, SessionError>)
        requires
            old(self).wf(),
            old(alloc).wf(),
        ensures
            final(self).wf(),
            final(alloc).wf(),
            !(old(self).state is Connected) ==> r == Err::<Vec<MsgValue>, SessionError>(
                SessionError::ProtocolViolation,
            ) && final(self).state is Closed && final(self).extranonce == old(self).extranonce
                && final(alloc).held() == old(alloc).held(),
            old(self).state is Connected ==> match r {
                Ok(resp) => {
                    let p = profile_for(remote_app@, big_job);
                    &&& final(self).state is Subscribed
                    &&& final(self).profile == Some(p)
                    &&& final(self).last_activity == now
                    &&& (p is Bitmain ==> final(self).extranonce is None && final(alloc).held()
                        == old(alloc).held() && subscribe_response_spec(
                        resp@,
                        p,
                        Seq::<char>::empty(),
                    ))
                    &&& (!(p is Bitmain) ==> {
                        &&& final(self).extranonce matches Some(t) && {
                            &&& !old(alloc).held().contains(t as int)
                            &&& forall|u: int| 0 <= u < t as int ==> old(alloc).held().contains(u)
                            &&& final(alloc).held() == old(alloc).held().insert(t as int)
                            &&& subscribe_response_spec(resp@, p, extranonce_hex_spec(t, 2))
                        }
                    })
                },
                Err(e) => {
                    &&& e == SessionError::PoolExhausted
                    &&& !(profile_for(remote_app@, big_job) is Bitmain)
                    &&& final(self).state is Closed
                    &&& final(self).extranonce is None
                    &&& final(alloc).held() == old(alloc).held()
                    &&& forall|u: int|
                        0 <= u <= 65535 ==> old(alloc).held().contains(u)
                },
            },
    {
        if !matches!(self.state, SessionState::Connected) {
            self.state = SessionState::Closed;
            return Err(SessionError::ProtocolViolation);
        }
        let p = classify_miner(remote_app, big_job);
        let size = extranonce_size_of(p);
        if size == 0 {
            self.profile = Some(p);
            self.state = SessionState::Subscribed;
            self.last_activity = now;
            let hex = String::new();
            let resp = subscribe_response(p, hex.as_str());
            Ok(resp)
        } else {
            match alloc.allocate() {
                None => {
                    self.state = SessionState::Closed;
                    Err(SessionError::PoolExhausted)
                },
                Some(t) => {
                    self.profile = Some(p);
                    self.extranonce = Some(t);
                    self.state = SessionState::Subscribed;
                    self.last_activity = now;
                    let hex = extranonce_hex(t, 2);
                    let resp = subscribe_response(p, hex.as_str());
                    Ok(resp)
                },
            }
        }
    }

    /// Handles an authorize request: legal exactly once, after
    /// subscribe; anywhere else it is a protocol violation and closes
    /// the session. No resource is allocated.
    pub fn on_authorize(&mut self, now: u64) -> (r: Result<(), SessionError>)
        requires
            old(self).wf(),
        ensures
            final(self).wf(),
            final(self).extranonce == old(self).extranonce,
            old(self).state is Subscribed ==> r == Ok::<(), SessionError>(()) && final(self).state
                is Authorized && final(self).profile == old(self).profile
                && final(self).last_activity == now,
            !(old(self).state is Subscribed) ==> r == Err::<(), SessionError>(
                SessionError::ProtocolViolation,
            ) && final(self).state is Closed,
    {
        if matches!(self.state, SessionState::Subscribed) {
            self.state = SessionState::Authorized;
            self.last_activity = now;
            Ok(())
        } else {
            self.state = SessionState::Closed;
            Err(SessionError::ProtocolViolation)
        }
    }

    /// Moves an authorized session into `Mining` once the first job is
    /// available, setting its difficulty from the instance's configured
    /// minimum.
    pub fn start_mining(&mut self, min_diff: u64) -> (r: Result<(), SessionError>)
        requires
            old(self).wf(),
            min_diff >= 1,
        ensures
            final(self).wf(),
            final(self).extranonce == old(self).extranonce,
            old(self).state is Authorized ==> r == Ok::<(), SessionError>(()) && final(self).state
                is Mining && final(self).profile == old(self).profile
                && final(self).diff.spec_difficulty() == min_diff,
            !(old(self).state is Authorized) ==> r == Err::<(), SessionError>(
                SessionError::ProtocolViolation,
            ) && final(self).state is Closed,
    {
        if matches!(self.state, SessionState::Authorized) {
            self.state = SessionState::Mining;
            self.diff.set_difficulty(min_diff);
            Ok(())
        } else {
            self.state = SessionState::Closed;
            Err(SessionError::ProtocolViolation)
        }
    }

    /// Handles a submit request. Before `Mining` it is a protocol
    /// violation that closes the session and leaves the registry
    /// untouched. In `Mining` the share runs the validation pipeline;
    /// an accepted share's timestamp feeds the VarDiff window,
    /// rejections leave the window alone; the retained jobs and the
    /// next job id are never changed.
    pub fn on_submit(
        &mut self,
        reg: &mut JobRegistry,
        sub: &ShareSubmission,
        hash: u64,
        network_diff: u64,
        now: u64,
    ) -> (r: Result<ShareOutcome, SessionError>)
        requires
            old(self).wf(),
            old(reg).wf(),
            network_diff >= 1,
        ensures
            final(self).wf(),
            final(reg).wf(),
            final(self).profile == old(self).profile,
            final(self).extranonce == old(self).extranonce,
            final(self).diff.spec_difficulty() == old(self).diff.spec_difficulty(),
            final(reg).job_ids() == old(reg).job_ids(),
            final(reg).next_job_id() == old(reg).next_job_id(),
            !(old(self).state is Mining) ==> r == Err::<ShareOutcome, SessionError>(
                SessionError::ProtocolViolation,
            ) && final(self).state is Closed && *final(reg) == *old(reg)
                && final(self).diff.spec_window() == old(self).diff.spec_window(),
            old(self).state is Mining ==> {
                let out = submit_outcome(
                    *old(reg),
                    *sub,
                    hash,
                    old(self).diff.spec_difficulty(),
                    network_diff,
                );
                &&& final(self).state is Mining
                &&& r == Ok::<ShareOutcome, SessionError>(out)
                &&& (out is Accepted ==> final(self).diff.spec_window() == old(
                    self,
                ).diff.spec_window().push(now) && final(self).last_activity == now)
                &&& (!(out is Accepted) ==> final(self).diff.spec_window() == old(
                    self,
                ).diff.spec_window())
                &&& (out is Accepted ==> forall|jid: u64, e2: u64, n: u64|
                    final(reg).is_seen(jid, e2, n) <==> old(reg).is_seen(jid, e2, n) || (
                        jid,
                        e2,
                        n,
                    ) == (sub.job_id, sub.extranonce2, sub.nonce))
                &&& (!(out is Accepted) ==> *final(reg) == *old(reg))
            },
    {
        if !matches!(self.state, SessionState::Mining) {
            self.state = SessionState::Closed;
            return Err(SessionError::ProtocolViolation);
        }
        let session_diff = self.diff.difficulty();
        let outcome = process_submit(reg, sub, hash, session_diff, network_diff);
        if matches!(outcome, ShareOutcome::Accepted { .. }) {
            self.diff.record_share(now);
            self.last_activity = now;
        }
        Ok(outcome)
    }

    /// Closes the session, releasing its extranonce token back to the
    /// instance pool.
    pub fn close(&mut self, alloc: &mut ExtranonceAllocator)
        requires
            old(self).wf(),
            old(alloc).wf(),
        ensures
            final(self).wf(),
            final(alloc).wf(),
            final(self).state is Closed,
            final(self).extranonce is None,
            match old(self).extranonce {
                Some(t) => final(alloc).held() == old(alloc).held().remove(t as int),
                None => final(alloc).held() == old(alloc).held(),
            },
    {
        match self.extranonce {
            Some(t) => {
                alloc.release(t);
            },
            None => {},
        }
        self.extranonce = None;
        self.state = SessionState::Closed;
    }

    /// The session has been idle past the client timeout and should be
    /// disconnected.
    pub fn is_idle(&self, now: u64) -> (r: bool)
        ensures
            r == ((now as int) - (self.last_activity as int) > (CLIENT_TIMEOUT_SECS as int)
                * 1000),
    {
        now > self.last_activity && now - self.last_activity > CLIENT_TIMEOUT_SECS * 1000
    }
}

} // verus!
