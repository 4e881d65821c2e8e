use std::collections::VecDeque;
use vstd::prelude::*;

verus! {

/// The queue contents after `x` is pushed onto `items` in a queue holding at
/// most `cap` frames: appended when there is room, otherwise the oldest frame
/// is dropped first.
pub open spec fn pushed<T>(items: Seq<T>, cap: nat, x: T) -> Seq<T> {
    if items.len() < cap {
        items.push(x)
    } else {
        items.drop_first().push(x)
    }
}

/// The contents after pushing every frame of `xs`, in order, with no pop.
pub open spec fn pushed_all<T>(items: Seq<T>, cap: nat, xs: Seq<T>) -> Seq<T>
    decreases xs.len(),
{
    if xs.len() == 0 {
        items
    } else {
        pushed(pushed_all(items, cap, xs.drop_last()), cap, xs.last())
    }
}

/// How many of the pushes of `xs`, in order and with no pop, found the queue
/// full and reported an overrun.
pub open spec fn overruns_of<T>(items: Seq<T>, cap: nat, xs: Seq<T>) -> nat
    decreases xs.len(),
{
    if xs.len() == 0 {
        0
    } else {
        let before = pushed_all(items, cap, xs.drop_last());
        overruns_of(items, cap, xs.drop_last()) + if before.len() < cap {
            0nat
        } else {
            1nat
        }
    }
}

/// Bounded single-producer / single-consumer handoff of frames with a
/// drop-oldest overflow policy. Storage is reserved once, at construction.
pub struct FrameQueue<T> {
    items: VecDeque<T>,
    capacity: usize,
    overruns: u64,
}

impl<T> View for FrameQueue<T> {
    type V = Seq<T>;

    /// The queued frames, oldest first.
    closed spec fn view(&self) -> Seq<T> {
        self.items@
    }
}

impl<T> FrameQueue<T> {
    /// The fixed bound on the number of queued frames.
    pub closed spec fn cap(&self) -> nat {
        self.capacity as nat
    }

    /// How many pushes so far found the queue full (saturating at `u64::MAX`).
    pub closed spec fn overrun_count(&self) -> nat {
        self.overruns as nat
    }

    pub closed spec fn wf(&self) -> bool {
        &&& self.capacity > 0
        &&& self.items@.len() <= self.capacity
    }

    /// An empty queue that holds at most `capacity` frames.
    pub fn new(capacity: usize) -> (q: Self)
        requires
            capacity > 0,
        ensures
            q.wf(),
            q@ == Seq::<T>::empty(),
            q.cap() == capacity,
            q.overrun_count() == 0,
    {
        FrameQueue { items: VecDeque::with_capacity(capacity), capacity, overruns: 0 }
    }

    pub fn capacity(&self) -> (r: usize)
        ensures
            r == self.cap(),
    {
        self.capacity
    }

    pub fn len(&self) -> (r: usize)
        requires
            self.wf(),
        ensures
            r == self@.len(),
    {
        broadcast use vstd::std_specs::vecdeque::group_vec_dequeue_axioms;

        self.items.len()
    }

    pub fn is_empty(&self) -> (r: bool)
        requires
            self.wf(),
        ensures
            r == (self@.len() == 0),
    {
        self.len() == 0
    }

    pub fn overruns(&self) -> (r: u64)
        ensures
            r == self.overrun_count(),
    {
        self.overruns
    }

    /// Enqueues `frame` without blocking. When the queue is full the oldest
    /// frame is dropped to make room, the overrun is counted and `false` is
    /// returned; otherwise `true`.
    pub fn push(&mut self, frame: T) -> (accepted: bool)
        requires
            old(self).wf(),
        ensures
            final(self).wf(),
            final(self).cap() == old(self).cap(),
            accepted == (old(self)@.len() < old(self).cap()),
            final(self)@ == pushed(old(self)@, old(self).cap(), frame),
            final(self).overrun_count() == if accepted {
                old(self).overrun_count()
            } else if old(self).overrun_count() < u64::MAX {
                old(self).overrun_count() + 1
            } else {
                old(self).overrun_count()
            },
    {
        broadcast use vstd::std_specs::vecdeque::group_vec_dequeue_axioms;

        if self.items.len() < self.capacity {
            self.items.push_back(frame);
            true
        } else {
            let _oldest = self.items.pop_front();
            self.items.push_back(frame);
            if self.overruns < u64::MAX {
                self.overruns = self.overruns + 1;
            }
            false
        }
    }

    /// Dequeues the oldest frame, if any.
    pub fn pop(&mut self) -> (r: Option<T>)
        requires
            old(self).wf(),
        ensures
            final(self).wf(),
            final(self).cap() == old(self).cap(),
            final(self).overrun_count() == old(self).overrun_count(),
            old(self)@.len() == 0 ==> r is None && final(self)@ == old(self)@,
            old(self)@.len() > 0 ==> r == Some(old(self)@[0]) && final(self)@
                == old(self)@.drop_first(),
    {
        self.items.pop_front()
    }
}

/// Pushing `xs` onto an empty queue with no pop in between, where `xs` holds at
/// least as many frames as the capacity, reports exactly `xs.len() - cap`
/// overruns and leaves the last `cap` frames of `xs` queued, in arrival order.
pub proof fn lemma_overrun_keeps_newest<T>(cap: nat, xs: Seq<T>)
    requires
        cap > 0,
        xs.len() >= cap,
    ensures
        pushed_all(Seq::<T>::empty(), cap, xs) == xs.subrange(xs.len() - cap, xs.len() as int),
        overruns_of(Seq::<T>::empty(), cap, xs) == xs.len() - cap,
{
    lemma_fill_below_capacity(cap, xs.subrange(0, cap as int));
    lemma_full_queue_pushes(cap, xs, xs.len());
    assert(xs.subrange(0, xs.len() as int) =~= xs);
}

proof fn lemma_fill_below_capacity<T>(cap: nat, xs: Seq<T>)
    requires
        xs.len() <= cap,
    ensures
        pushed_all(Seq::<T>::empty(), cap, xs) == xs,
        overruns_of(Seq::<T>::empty(), cap, xs) == 0,
    decreases xs.len(),
{
    if xs.len() > 0 {
        lemma_fill_below_capacity(cap, xs.drop_last());
        assert(xs.drop_last().push(xs.last()) =~= xs);
    }
}

proof fn lemma_full_queue_pushes<T>(cap: nat, xs: Seq<T>, k: nat)
    requires
        cap > 0,
        cap <= k <= xs.len(),
        pushed_all(Seq::<T>::empty(), cap, xs.subrange(0, cap as int)) == xs.subrange(0, cap as int),
        overruns_of(Seq::<T>::empty(), cap, xs.subrange(0, cap as int)) == 0,
    ensures
        pushed_all(Seq::<T>::empty(), cap, xs.subrange(0, k as int)) == xs.subrange(
            k - cap,
            k as int,
        ),
        overruns_of(Seq::<T>::empty(), cap, xs.subrange(0, k as int)) == k - cap,
    decreases k,
{
    if k > cap {
        lemma_full_queue_pushes(cap, xs, (k - 1) as nat);
        let p = xs.subrange(0, k as int);
        assert(p.drop_last() =~= xs.subrange(0, k - 1));
        assert(xs.subrange(k - 1 - cap, k - 1).drop_first().push(xs[k - 1]) =~= xs.subrange(
            k - cap,
            k as int,
        ));
    }
}

} // verus!
