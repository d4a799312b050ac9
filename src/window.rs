use vstd::prelude::*;
use std::collections::VecDeque;
use crate::error::{error_detail, IndicatorError};
use crate::utils::{length_message, validate_data_length};

verus! {

broadcast use vstd::std_specs::vecdeque::group_vec_dequeue_axioms;

/// The samples that a window of capacity `p` holds once the samples of `s`
/// were pushed, in order, into an empty one: the last `min(p, |s|)` of them.
pub open spec fn window_of<T>(s: Seq<T>, p: nat) -> Seq<T> {
    if s.len() <= p {
        s
    } else {
        s.subrange(s.len() - p, s.len() as int)
    }
}

/// The number of pushes, over the stream `s` into an empty window of capacity
/// `p`, after which the window is full: the number of outputs a windowed
/// indicator of period `p` yields over `s`.
pub open spec fn ready_steps<T>(s: Seq<T>, p: nat) -> nat
    decreases s.len(),
{
    if s.len() == 0 {
        0
    } else {
        ready_steps(s.drop_last(), p) + if window_of(s, p).len() == p {
            1nat
        } else {
            0nat
        }
    }
}

/// Streaming agrees with batch: pushing one more sample into the window of a
/// history gives the window of the extended history.
pub proof fn lemma_window_push<T>(s: Seq<T>, x: T, p: nat)
    requires
        p >= 1,
    ensures
        window_of(window_of(s, p).push(x), p) == window_of(s.push(x), p),
{
    assert(window_of(window_of(s, p).push(x), p) =~= window_of(s.push(x), p));
}

/// Window-length law: over a history `s`, a window of period `p >= 1` is full
/// after exactly `|s| - p + 1` of the pushes when `|s| >= p`, and after none
/// otherwise.
pub proof fn lemma_window_length_law<T>(s: Seq<T>, p: nat)
    requires
        p >= 1,
    ensures
        ready_steps(s, p) == if s.len() >= p {
            (s.len() - p + 1) as nat
        } else {
            0nat
        },
    decreases s.len(),
{
    if s.len() > 0 {
        lemma_window_length_law(s.drop_last(), p);
    }
}

/// The outputs of the streaming path of a windowed indicator whose value on
/// a full window is `f`: after each push, `f` of the window when it is full,
/// nothing while it is filling.
pub open spec fn streamed<T, O>(s: Seq<T>, p: nat, f: spec_fn(Seq<T>) -> O) -> Seq<O>
    decreases s.len(),
{
    if s.len() == 0 {
        Seq::empty()
    } else {
        let earlier = streamed(s.drop_last(), p, f);
        if window_of(s, p).len() == p {
            earlier.push(f(window_of(s, p)))
        } else {
            earlier
        }
    }
}

/// The outputs of the batch path of the same indicator: `f` of each run of
/// `p` consecutive samples of the history, in order.
pub open spec fn batched<T, O>(s: Seq<T>, p: nat, f: spec_fn(Seq<T>) -> O) -> Seq<O> {
    if s.len() >= p {
        Seq::new((s.len() - p + 1) as nat, |i: int| f(s.subrange(i, i + p)))
    } else {
        Seq::empty()
    }
}

/// Batch/streaming equivalence for every windowed indicator: whatever the
/// per-window formula `f`, feeding the history sample by sample and keeping
/// the outputs gives exactly the batch outputs.
pub proof fn lemma_batch_streaming_equivalence<T, O>(s: Seq<T>, p: nat, f: spec_fn(Seq<T>) -> O)
    requires
        p >= 1,
    ensures
        streamed(s, p, f) == batched(s, p, f),
    decreases s.len(),
{
    if s.len() > 0 {
        let t = s.drop_last();
        lemma_batch_streaming_equivalence(t, p, f);
        if s.len() >= p {
            assert(window_of(s, p) =~= s.subrange(s.len() - p, s.len() as int));
            if t.len() >= p {
                assert forall|i: int| 0 <= i < t.len() - p + 1 implies #[trigger] t.subrange(i, i + p)
                    == s.subrange(i, i + p) by {
                    assert(t.subrange(i, i + p) =~= s.subrange(i, i + p));
                }
            }
            assert(streamed(s, p, f) =~= batched(s, p, f));
        } else {
            assert(streamed(s, p, f) =~= batched(s, p, f));
        }
    }
}

/// A full window over a history ends with its latest sample and starts with
/// the sample `p - 1` steps before it.
pub proof fn lemma_full_window_ends<T>(s: Seq<T>, p: nat)
    requires
        p >= 1,
        s.len() >= p,
    ensures
        window_of(s, p).len() == p,
        window_of(s, p)[0] == s[s.len() - p],
        window_of(s, p)[p - 1] == s[s.len() - 1],
{
}

/// A bounded first-in first-out buffer of the last `capacity` samples.
///
/// Pushing into a full window evicts, and hands back, its oldest sample.
#[derive(Debug)]
pub struct RollingWindow<T> {
    buf: VecDeque<T>,
    capacity: usize,
}

impl<T> View for RollingWindow<T> {
    type V = Seq<T>;

    /// The samples held, oldest first.
    closed spec fn view(&self) -> Seq<T> {
        self.buf@
    }
}

impl<T> RollingWindow<T> {
    /// The number of samples the window holds when full.
    pub closed spec fn spec_capacity(&self) -> nat {
        self.capacity as nat
    }

    /// The window never holds more samples than its capacity, which is
    /// positive.
    pub closed spec fn wf(&self) -> bool {
        &&& self.capacity >= 1
        &&& self.buf@.len() <= self.capacity
    }

    /// An empty window of the given capacity.
    pub fn new(capacity: usize) -> (r: Self)
        requires
            capacity >= 1,
        ensures
            r.wf(),
            r@ == Seq::<T>::empty(),
            r.spec_capacity() == capacity,
    {
        RollingWindow { buf: VecDeque::with_capacity(capacity), capacity }
    }

    /// Appends `value`; when the window was full, its oldest sample leaves
    /// and is returned.
    pub fn push(&mut self, value: T) -> (evicted: Option<T>)
        requires
            old(self).wf(),
        ensures
            final(self).wf(),
            final(self).spec_capacity() == old(self).spec_capacity(),
            final(self)@ == window_of(old(self)@.push(value), old(self).spec_capacity()),
            old(self)@.len() < old(self).spec_capacity() ==> evicted is None,
            old(self)@.len() == old(self).spec_capacity() ==> evicted == Some(old(self)@[0]),
    {
        let full = self.buf.len() == self.capacity;
        self.buf.push_back(value);
        if full {
            let e = self.buf.pop_front();
            assert(self.buf@ =~= window_of(old(self)@.push(value), self.capacity as nat));
            e
        } else {
            None
        }
    }

    /// Removes every sample; the capacity stays.
    pub fn clear(&mut self)
        requires
            old(self).wf(),
        ensures
            final(self).wf(),
            final(self).spec_capacity() == old(self).spec_capacity(),
            final(self)@ == Seq::<T>::empty(),
    {
        self.buf.clear();
    }

    /// The number of samples held.
    pub fn len(&self) -> (r: usize)
        ensures
            r == self@.len(),
    {
        self.buf.len()
    }

    /// Whether no sample is held.
    pub fn is_empty(&self) -> (r: bool)
        ensures
            r == (self@.len() == 0),
    {
        self.buf.len() == 0
    }

    /// The capacity the window was made with.
    pub fn capacity(&self) -> (r: usize)
        ensures
            r == self.spec_capacity(),
    {
        self.capacity
    }

    /// Whether the window holds as many samples as its capacity.
    pub fn is_full(&self) -> (r: bool)
        ensures
            r == (self@.len() == self.spec_capacity()),
    {
        self.buf.len() == self.capacity
    }

    /// The sample at position `i`, counted from the oldest.
    pub fn get(&self, i: usize) -> (r: &T)
        requires
            i < self@.len(),
        ensures
            *r == self@[i as int],
    {
        &self.buf[i]
    }

    /// The oldest sample, if any.
    pub fn oldest(&self) -> (r: Option<&T>)
        ensures
            self@.len() == 0 ==> r is None,
            self@.len() > 0 ==> r == Some(&self@[0]),
    {
        if self.buf.len() == 0 {
            None
        } else {
            Some(&self.buf[0])
        }
    }

    /// The newest sample, if any.
    pub fn newest(&self) -> (r: Option<&T>)
        ensures
            self@.len() == 0 ==> r is None,
            self@.len() > 0 ==> r == Some(&self@[self@.len() - 1]),
    {
        let n = self.buf.len();
        if n == 0 {
            None
        } else {
            Some(&self.buf[n - 1])
        }
    }
}

impl<T: Copy> RollingWindow<T> {
    /// The samples held, oldest first, as a vector.
    pub fn to_vec(&self) -> (r: Vec<T>)
        ensures
            r@ == self@,
    {
        let mut r: Vec<T> = Vec::new();
        let n = self.buf.len();
        let mut i: usize = 0;
        while i < n
            invariant
                n == self@.len(),
                i <= n,
                r@ == self@.subrange(0, i as int),
            decreases n - i,
        {
            r.push(self.buf[i]);
            i = i + 1;
            assert(r@ =~= self@.subrange(0, i as int));
        }
        assert(r@ =~= self@);
        r
    }
}

/// Every full window over `data`, in order: the window held after each push
/// that filled it, when the samples of `data` are pushed one by one into an
/// empty window of capacity `period`. Fails with `InsufficientData` when
/// `data` is shorter than `period`.
pub fn sliding_windows<T: Copy>(data: &[T], period: usize) -> (r: Result<Vec<Vec<T>>, IndicatorError>)
    requires
        period >= 1,
    ensures
        r is Err <==> data@.len() < period,
        r is Err ==> r->Err_0 is InsufficientData && error_detail(r->Err_0) == length_message(
            period as nat,
        ),
        r is Ok ==> {
            let out = r->Ok_0;
            &&& out@.len() == ready_steps(data@, period as nat)
            &&& out@.len() == data@.len() - period + 1
            &&& forall|i: int|
                0 <= i < out@.len() ==> (#[trigger] out@[i])@ == data@.subrange(i, i + period)
            &&& out@.map_values(|v: Vec<T>| v@) == streamed(data@, period as nat, |w: Seq<T>| w)
        },
{
    validate_data_length(data, period)?;
    let mut w: RollingWindow<T> = RollingWindow::new(period);
    let mut out: Vec<Vec<T>> = Vec::new();
    let n = data.len();
    let mut k: usize = 0;
    while k < n
        invariant
            n == data@.len(),
            n >= period,
            period >= 1,
            k <= n,
            w.wf(),
            w.spec_capacity() == period,
            w@ == window_of(data@.subrange(0, k as int), period as nat),
            out@.len() == ready_steps(data@.subrange(0, k as int), period as nat),
            forall|i: int|
                0 <= i < out@.len() ==> (#[trigger] out@[i])@ == data@.subrange(i, i + period),
        decreases n - k,
    {
        proof {
            let pre = data@.subrange(0, k as int);
            let post = data@.subrange(0, k + 1);
            assert(post =~= pre.push(data@[k as int]));
            assert(post.drop_last() =~= pre);
            lemma_window_push(pre, data@[k as int], period as nat);
            lemma_window_length_law(pre, period as nat);
            lemma_window_length_law(post, period as nat);
        }
        w.push(data[k]);
        k = k + 1;
        if w.is_full() {
            let v = w.to_vec();
            assert(v@ =~= data@.subrange(out@.len() as int, out@.len() + period));
            out.push(v);
        }
    }
    proof {
        assert(data@.subrange(0, n as int) =~= data@);
        lemma_window_length_law(data@, period as nat);
        let id = |w: Seq<T>| w;
        lemma_batch_streaming_equivalence(data@, period as nat, id);
        assert(out@.map_values(|v: Vec<T>| v@) =~= batched(data@, period as nat, id));
    }
    Ok(out)
}

} // verus!
