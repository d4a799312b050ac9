use vstd::prelude::*;

verus! {

/// The number of steps, out of the first `n`, on which an indicator with
/// the given lookback has an output: the steps numbered `lookback` and on.
pub open spec fn outputs_within(n: nat, lookback: nat) -> nat
    decreases n,
{
    if n == 0 {
        0
    } else {
        outputs_within((n - 1) as nat, lookback) + if n >= lookback {
            1nat
        } else {
            0nat
        }
    }
}

/// Warm-up law: with a lookback of at least 1, `n` steps yield
/// `n - lookback + 1` outputs when `n >= lookback`, and none otherwise.
pub proof fn lemma_outputs_within(n: nat, lookback: nat)
    requires
        lookback >= 1,
    ensures
        outputs_within(n, lookback) == if n >= lookback {
            (n - lookback + 1) as nat
        } else {
            0nat
        },
    decreases n,
{
    if n > 0 {
        lemma_outputs_within((n - 1) as nat, lookback);
    }
}

/// The warm-up phase of a streaming indicator: counts the samples seen until
/// `lookback` of them have arrived, after which every step has an output.
#[derive(Debug)]
pub struct WarmUp {
    seen: usize,
    lookback: usize,
}

impl WarmUp {
    /// Samples counted so far, capped at the lookback.
    pub closed spec fn spec_seen(&self) -> nat {
        self.seen as nat
    }

    /// Samples needed before the first output.
    pub closed spec fn spec_lookback(&self) -> nat {
        self.lookback as nat
    }

    pub closed spec fn wf(&self) -> bool {
        &&& self.lookback >= 1
        &&& self.seen <= self.lookback
    }

    /// A fresh warm-up that needs `lookback` samples.
    pub fn new(lookback: usize) -> (r: Self)
        requires
            lookback >= 1,
        ensures
            r.wf(),
            r.spec_seen() == 0,
            r.spec_lookback() == lookback,
    {
        WarmUp { seen: 0, lookback }
    }

    /// Counts one more sample; returns whether this step has an output.
    pub fn step(&mut self) -> (ready: bool)
        requires
            old(self).wf(),
        ensures
            final(self).wf(),
            final(self).spec_lookback() == old(self).spec_lookback(),
            final(self).spec_seen() == if old(self).spec_seen() < old(self).spec_lookback() {
                old(self).spec_seen() + 1
            } else {
                old(self).spec_seen()
            },
            ready == (final(self).spec_seen() == final(self).spec_lookback()),
    {
        if self.seen < self.lookback {
            self.seen = self.seen + 1;
        }
        self.seen == self.lookback
    }

    /// Whether the first output has been reached.
    pub fn is_ready(&self) -> (r: bool)
        ensures
            r == (self.spec_seen() == self.spec_lookback()),
    {
        self.seen == self.lookback
    }

    /// The number of samples counted, capped at the lookback.
    pub fn seen(&self) -> (r: usize)
        ensures
            r == self.spec_seen(),
    {
        self.seen
    }

    /// Back to the state of a fresh warm-up; the lookback stays.
    pub fn reset(&mut self)
        requires
            old(self).wf(),
        ensures
            final(self).wf(),
            final(self).spec_seen() == 0,
            final(self).spec_lookback() == old(self).spec_lookback(),
    {
        self.seen = 0;
    }
}

/// The counter of a fresh warm-up with the given lookback after `n` steps.
pub open spec fn seen_after(n: nat, lookback: nat) -> nat {
    if n <= lookback {
        n
    } else {
        lookback
    }
}

/// Warm-up law, one step at a time: from the counter a fresh warm-up holds
/// after `n` steps, `step` moves to the counter after `n + 1` steps, and that
/// step reports an output exactly when `n + 1 >= lookback`. Summed over a
/// stream this gives `outputs_within`.
pub proof fn lemma_warm_up_step(n: nat, lookback: nat)
    requires
        lookback >= 1,
    ensures
        (if seen_after(n, lookback) < lookback {
            seen_after(n, lookback) + 1
        } else {
            seen_after(n, lookback)
        }) == seen_after(n + 1, lookback),
        (seen_after(n + 1, lookback) == lookback) == (n + 1 >= lookback),
{
}

} // verus!
