//! Per-instance extranonce allocator. Each session that is owed a
//! non-empty extranonce receives the lowest free token; tokens return to
//! the pool when the session closes. Two simultaneously active miners on
//! the same job therefore never search overlapping nonce space.

use vstd::prelude::*;

use crate::constants::MAX_EXTRANONCE_VALUE;

verus! {

/// Number of extranonce tokens in the pool: `0..=MAX_EXTRANONCE_VALUE`.
pub const EXTRANONCE_POOL_SIZE: usize = 65536;

/// Pool of extranonce tokens of one instance.
pub struct ExtranonceAllocator {
    used: Vec<bool>,
}

impl ExtranonceAllocator {
    /// The pool covers exactly the token range.
    pub closed spec fn wf(self) -> bool {
        self.used@.len() == EXTRANONCE_POOL_SIZE
    }

    /// The set of tokens currently held by active sessions.
    pub closed spec fn held(self) -> Set<int> {
        Set::new(|t: int| 0 <= t < self.used@.len() && self.used@[t])
    }

    /// A fresh allocator with every token free.
    pub fn new() -> (r: ExtranonceAllocator)
        ensures
            r.wf(),
            r.held() == Set::<int>::empty(),
    {
        let mut used: Vec<bool> = Vec::new();
        while used.len() < EXTRANONCE_POOL_SIZE
            invariant
                used@.len() <= EXTRANONCE_POOL_SIZE,
                forall|k: int| 0 <= k < used@.len() ==> !used@[k],
            decreases EXTRANONCE_POOL_SIZE - used@.len(),
        {
            used.push(false);
        }
        let r = ExtranonceAllocator { used };
        assert(r.held() =~= Set::<int>::empty());
        r
    }

    /// Allocates the lowest free token, or reports pool exhaustion.
    /// A returned token was free, lies in `0..=MAX_EXTRANONCE_VALUE`,
    /// was the lowest free one, and is held afterwards; every other
    /// token keeps its state. `None` comes exactly when every token
    /// is held, and then nothing changes.
    pub fn allocate(&mut self) -> (r: Option<u16>)
        requires
            old(self).wf(),
        ensures
            final(self).wf(),
            match r {
                Some(t) => {
                    &&& t as int <= MAX_EXTRANONCE_VALUE as int
                    &&& !old(self).held().contains(t as int)
                    &&& forall|u: int| 0 <= u < t as int ==> old(self).held().contains(u)
                    &&& final(self).held() == old(self).held().insert(t as int)
                },
                None => {
                    &&& forall|u: int|
                        0 <= u <= MAX_EXTRANONCE_VALUE as int ==> old(self).held().contains(u)
                    &&& final(self).held() == old(self).held()
                },
            },
    {
        let mut i: usize = 0;
        while i < EXTRANONCE_POOL_SIZE
            invariant
                *self == *old(self),
                self.wf(),
                i <= EXTRANONCE_POOL_SIZE,
                forall|k: int| 0 <= k < i ==> self.used@[k],
            decreases EXTRANONCE_POOL_SIZE - i,
        {
            if !self.used[i] {
                self.used.set(i, true);
                assert(self.held() =~= old(self).held().insert(i as int));
                return Some(i as u16);
            }
            i = i + 1;
        }
        assert(self.held() =~= old(self).held());
        None
    }

    /// Returns a token to the pool when its session closes; the token is
    /// free again afterwards and every other token keeps its state.
    pub fn release(&mut self, t: u16)
        requires
            old(self).wf(),
        ensures
            final(self).wf(),
            final(self).held() == old(self).held().remove(t as int),
    {
        self.used.set(t as usize, false);
        assert(self.held() =~= old(self).held().remove(t as int));
    }
}

/// Distinctness of live tokens: a token handed out while `h0` is held is
/// no member of `h0`, and a second token handed out after it joins the
/// held set differs from it. N successful subscribes therefore hold N
/// distinct tokens.
pub proof fn lemma_tokens_distinct(h0: Set<int>, t1: int, t2: int)
    requires
        !h0.contains(t1),
        !h0.insert(t1).contains(t2),
    ensures
        t1 != t2,
{
}

} // verus!
