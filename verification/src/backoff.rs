//! Backoff policy: a bounded, deterministic sequence of wait durations,
//! one consumed before each retry of a failed transport call.

use vstd::prelude::*;

verus! {

/// A backoff policy: how many retries to make, and the smallest and
/// largest wait between attempts, in milliseconds.
pub struct Backoff {
    /// How many retry waits the policy yields.
    pub retries: u32,
    /// The first (smallest) wait, in milliseconds.
    pub min_ms: u64,
    /// The cap every wait stays under, in milliseconds.
    pub max_ms: u64,
}

/// The wait before the retry with the given index: the minimum wait doubled
/// at each step, capped at the maximum.
pub open spec fn spec_wait(min: nat, max: nat, i: nat) -> nat
    decreases i,
{
    if i == 0 {
        min
    } else {
        let prev = spec_wait(min, max, (i - 1) as nat);
        if prev * 2 <= max {
            prev * 2
        } else {
            max
        }
    }
}

/// Every wait of a valid policy lies between the minimum and the maximum,
/// and successive waits never decrease.
pub proof fn lemma_wait_bounds(min: nat, max: nat, i: nat)
    requires
        min <= max,
    ensures
        min <= spec_wait(min, max, i) <= max,
        spec_wait(min, max, i) <= spec_wait(min, max, i + 1),
    decreases i,
{
    if i > 0 {
        lemma_wait_bounds(min, max, (i - 1) as nat);
    }
}

impl Backoff {
    /// A valid policy never waits less than its minimum or more than its maximum.
    pub open spec fn wf(self) -> bool {
        self.min_ms <= self.max_ms
    }

    /// Create a policy from a retry budget and wait bounds in milliseconds.
    pub fn new(retries: u32, min_ms: u64, max_ms: u64) -> (r: Backoff)
        requires
            min_ms <= max_ms,
        ensures
            r == (Backoff { retries, min_ms, max_ms }),
            r.wf(),
    {
        Backoff { retries, min_ms, max_ms }
    }

    /// The whole finite sequence of wait durations: exactly `retries` of
    /// them, each within the policy's bounds, never decreasing.
    pub fn schedule(&self) -> (s: Vec<u64>)
        requires
            self.wf(),
        ensures
            s@.len() == self.retries as nat,
            forall|i: int|
                0 <= i < s@.len() ==> s@[i] == spec_wait(
                    self.min_ms as nat,
                    self.max_ms as nat,
                    i as nat,
                ),
            forall|i: int| 0 <= i < s@.len() ==> self.min_ms <= #[trigger] s@[i] <= self.max_ms,
            forall|i: int| 0 <= i < s@.len() - 1 ==> #[trigger] s@[i] <= s@[i + 1],
    {
        let mut s: Vec<u64> = Vec::new();
        let mut cur: u64 = self.min_ms;
        let mut i: u32 = 0;
        while i < self.retries
            invariant
                self.wf(),
                i <= self.retries,
                s@.len() == i as nat,
                cur == spec_wait(self.min_ms as nat, self.max_ms as nat, i as nat),
                self.min_ms <= cur <= self.max_ms,
                forall|j: int|
                    0 <= j < i ==> s@[j] == spec_wait(self.min_ms as nat, self.max_ms as nat, j as nat),
            decreases self.retries - i,
        {
            s.push(cur);
            cur = if cur > self.max_ms / 2 {
                self.max_ms
            } else {
                cur * 2
            };
            i = i + 1;
            proof {
                lemma_wait_bounds(self.min_ms as nat, self.max_ms as nat, (i - 1) as nat);
            }
        }
        proof {
            assert forall|k: int| 0 <= k < s@.len() implies self.min_ms <= #[trigger] s@[k]
                <= self.max_ms by {
                lemma_wait_bounds(self.min_ms as nat, self.max_ms as nat, k as nat);
            }
            assert forall|k: int| 0 <= k < s@.len() - 1 implies #[trigger] s@[k] <= s@[k + 1] by {
                lemma_wait_bounds(self.min_ms as nat, self.max_ms as nat, k as nat);
            }
        }
        s
    }
}

} // verus!
