use vstd::prelude::*;
use crate::error::{error_detail, IndicatorError};
use vstd::string::*;
use crate::utils::{period_message, validate_period};
use crate::warmup::{lemma_outputs_within, outputs_within};

verus! {

/// The last `m` elements of `s`.
pub open spec fn tail<T>(s: Seq<T>, m: nat) -> Seq<T> {
    s.subrange(s.len() - m, s.len() as int)
}

/// The smaller of two lengths.
pub open spec fn min_len(a: nat, b: nat) -> nat {
    if a <= b {
        a
    } else {
        b
    }
}

/// Aligns two output series that end at the same time step but began at
/// different ones (their lookbacks differ): drops the head of the longer so
/// that both keep their last `min(|a|, |b|)` elements, index `i` of one then
/// standing for the same time step as index `i` of the other.
pub fn align_tails<T: Copy>(a: &[T], b: &[T]) -> (r: (Vec<T>, Vec<T>))
    ensures
        r.0@ == tail(a@, min_len(a@.len(), b@.len())),
        r.1@ == tail(b@, min_len(a@.len(), b@.len())),
{
    let m = if a.len() <= b.len() {
        a.len()
    } else {
        b.len()
    };
    let ra = copy_tail(a, m);
    let rb = copy_tail(b, m);
    (ra, rb)
}

fn copy_tail<T: Copy>(s: &[T], m: usize) -> (r: Vec<T>)
    requires
        m <= s@.len(),
    ensures
        r@ == tail(s@, m as nat),
{
    let start = s.len() - m;
    let mut r: Vec<T> = Vec::new();
    let mut i: usize = start;
    while i < s.len()
        invariant
            start == s@.len() - m,
            start <= i <= s@.len(),
            r@ == s@.subrange(start as int, i as int),
        decreases s@.len() - i,
    {
        r.push(s[i]);
        i = i + 1;
        assert(r@ =~= s@.subrange(start as int, i as int));
    }
    r
}

/// The detail message when the fast period of a MACD is not below its slow
/// period.
pub open spec fn macd_order_message() -> Seq<char> {
    "Slow period must be greater than fast period"@
}

/// Checks the periods of a MACD: each at least 1, and the fast period below
/// the slow one.
pub fn validate_macd_periods(fast_period: usize, slow_period: usize, signal_period: usize) -> (r:
    Result<(), IndicatorError>)
    ensures
        r is Ok <==> (fast_period >= 1 && slow_period >= 1 && signal_period >= 1 && fast_period
            < slow_period),
        r is Err ==> r->Err_0 is InvalidParameter,
        r is Err && (fast_period == 0 || slow_period == 0 || signal_period == 0) ==> error_detail(
            r->Err_0,
        ) == period_message(1),
        r is Err && fast_period >= 1 && slow_period >= 1 && signal_period >= 1 ==> error_detail(
            r->Err_0,
        ) == macd_order_message(),
{
    validate_period(fast_period, 1)?;
    validate_period(slow_period, 1)?;
    validate_period(signal_period, 1)?;
    if fast_period >= slow_period {
        let msg = String::from_str("Slow period must be greater than fast period");
        return Err(IndicatorError::InvalidParameter(msg));
    }
    Ok(())
}

/// The input length that two chained windowed stages need, the second fed by
/// the outputs of the first: `first + second - 1`, saturated at the largest
/// `usize` (no input is that long).
pub fn chained_min_len(first: usize, second: usize) -> (r: usize)
    requires
        first >= 1,
        second >= 1,
    ensures
        first + second - 1 <= usize::MAX ==> r == first + second - 1,
        first + second - 1 > usize::MAX ==> r == usize::MAX,
{
    if first > usize::MAX - (second - 1) {
        usize::MAX
    } else {
        first + (second - 1)
    }
}

/// The input length that two parallel windowed stages over the same input
/// need: the larger of the two periods.
pub fn parallel_min_len(first: usize, second: usize) -> (r: usize)
    ensures
        r == if first >= second {
            first
        } else {
            second
        },
{
    if first >= second {
        first
    } else {
        second
    }
}

/// Chained stages: a second windowed stage of period `q`, fed the outputs
/// of a first of period `p` over `n` samples, yields as many outputs as one
/// stage of period `p + q - 1` over the same samples.
pub proof fn lemma_chained_outputs(n: nat, p: nat, q: nat)
    requires
        p >= 1,
        q >= 1,
    ensures
        outputs_within(outputs_within(n, p), q) == outputs_within(n, (p + q - 1) as nat),
{
    lemma_outputs_within(n, p);
    lemma_outputs_within(outputs_within(n, p), q);
    lemma_outputs_within(n, (p + q - 1) as nat);
}

/// Parallel stages: aligning the outputs of two stages of periods `p` and
/// `q` over the same `n` samples leaves as many pairs as one stage of period
/// `max(p, q)` yields.
pub proof fn lemma_parallel_outputs(n: nat, p: nat, q: nat)
    requires
        p >= 1,
        q >= 1,
    ensures
        min_len(outputs_within(n, p), outputs_within(n, q)) == outputs_within(
            n,
            if p >= q {
                p
            } else {
                q
            },
        ),
{
    lemma_outputs_within(n, p);
    lemma_outputs_within(n, q);
    lemma_outputs_within(n, if p >= q { p } else { q });
}

} // verus!
