//! A fallible allocation gauge.
//!
//! Every collection reservation and every owned-node allocation made while
//! rebuilding a tree goes through one request to this gauge.  The gauge either
//! grants requests without bound or carries a budget of grants and refuses
//! every request once the budget is spent, which makes out-of-memory behaviour
//! deterministic and testable on hosts whose real allocator never fails.

use vstd::prelude::*;

verus! {

/// Grants or refuses allocation requests.
///
/// With `budget == None` every request is granted.  With `budget == Some(k)`
/// the next `k` requests are granted and all later ones are refused.
#[derive(Clone, Copy, Debug)]
pub struct AllocGauge {
    pub budget: Option<u64>,
}

impl AllocGauge {
    /// True when `n` consecutive requests, starting now, would all be granted.
    pub open spec fn allows(self, n: nat) -> bool {
        match self.budget {
            None => true,
            Some(k) => n <= k,
        }
    }

    /// The gauge after `n` granted requests.
    pub open spec fn grant(self, n: nat) -> AllocGauge
        recommends
            self.allows(n),
    {
        match self.budget {
            None => self,
            Some(k) => AllocGauge { budget: Some((k - n) as u64) },
        }
    }

    /// A gauge that grants every request.
    pub fn unlimited() -> (g: AllocGauge)
        ensures
            g.budget is None,
    {
        AllocGauge { budget: None }
    }

    /// A gauge that refuses its `nth` request (counting from one) and every
    /// request after it.
    pub fn fail_on(nth: u64) -> (g: AllocGauge)
        requires
            nth >= 1,
        ensures
            g.budget == Some((nth - 1) as u64),
    {
        AllocGauge { budget: Some(nth - 1) }
    }

    /// One allocation request: true when granted.
    pub fn try_alloc(&mut self) -> (granted: bool)
        ensures
            granted == old(self).allows(1),
            granted ==> *final(self) == old(self).grant(1),
            !granted ==> *final(self) == *old(self),
    {
        match self.budget {
            None => true,
            Some(k) => {
                if k == 0 {
                    false
                } else {
                    self.budget = Some(k - 1);
                    true
                }
            },
        }
    }

    /// Granting a run of `a + b` requests is the same as granting `a`, then
    /// `b` from the gauge left behind.
    pub proof fn lemma_grant_split(self, a: nat, b: nat)
        ensures
            self.allows(a + b) <==> self.allows(a) && self.grant(a).allows(b),
            self.allows(a + b) ==> self.grant(a + b) == self.grant(a).grant(b),
    {
    }
}

} // verus!
