//! The service around the bridge instances: which instance polls for
//! templates, how per-process decisions are derived from the resolved
//! configuration, and the fail-fast verdict over the instances' results.

use vstd::prelude::*;

use crate::config::ServiceConfig;

verus! {

/// The running service: the resolved configuration it was started with.
pub struct StratumService {
    pub config: ServiceConfig,
}

impl StratumService {
    /// Wraps a resolved configuration, ready to run.
    pub fn new(config: ServiceConfig) -> (r: StratumService)
        ensures
            r.config == config,
    {
        Self { config }
    }

    /// Whether the process logs to a file: the global flag, or the
    /// first instance's override when one is set.
    pub fn should_log_to_file(&self) -> (r: bool)
        ensures
            r == (self.config.global.log_to_file || (self.config.instances@.len() > 0
                && match self.config.instances@[0].log_to_file {
                Some(b) => b,
                None => false,
            })),
    {
        if self.config.global.log_to_file {
            return true;
        }
        if self.config.instances.len() > 0 {
            match self.config.instances[0].log_to_file {
                Some(b) => b,
                None => false,
            }
        } else {
            false
        }
    }
}

/// Exactly the first configured instance polls the node for templates;
/// every other instance receives fanned-out jobs.
pub fn is_primary_instance(idx: usize) -> (r: bool)
    ensures
        r == (idx == 0),
{
    idx == 0
}

/// Fail-fast verdict over the instances' run results: the index of the
/// first failed instance, or `None` when every instance succeeded. Any
/// failure stops the whole service.
pub fn first_failure(results: &Vec<bool>) -> (r: Option<usize>)
    ensures
        match r {
            Some(i) => i < results@.len() && !results@[i as int] && forall|k: int|
                0 <= k < i ==> results@[k],
            None => forall|k: int| 0 <= k < results@.len() ==> results@[k],
        },
{
    let mut i: usize = 0;
    while i < results.len()
        invariant
            i <= results@.len(),
            forall|k: int| 0 <= k < i ==> results@[k],
        decreases results@.len() - i,
    {
        if !results[i] {
            return Some(i);
        }
        i = i + 1;
    }
    None
}

} // verus!
