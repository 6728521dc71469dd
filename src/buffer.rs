//! A bounded queue of audio frames with a pool of reusable frame buffers.
//!
//! The producer copies each arriving block of samples into a buffer taken
//! from the pool (or a new one when the pool is empty) and queues it; the
//! consumer takes frames in arrival order and hands each buffer back, where
//! it rejoins the pool only if its allocation has the configured frame size.
//! Queued frames and pooled buffers together never exceed the capacity.
use std::collections::VecDeque;
use vstd::prelude::*;

verus! {

/// Relies on Vec::capacity: the number of elements the vector can hold
/// without reallocating, never less than its length.
#[verifier::external_body]
fn vec_capacity<T>(v: &Vec<T>) -> (r: usize)
    ensures
        r >= v@.len(),
{
    v.capacity()
}

/// The contents of the queued frames, oldest first.
pub open spec fn frame_contents<T>(q: Seq<Vec<T>>) -> Seq<Seq<T>> {
    Seq::new(q.len(), |i: int| q[i]@)
}

pub struct RingBuffer<T> {
    queue: VecDeque<Vec<T>>,
    pool: Vec<Vec<T>>,
    capacity: usize,
    buffer_size: usize,
}

impl<T> RingBuffer<T> {
    /// The queued frames, oldest first.
    pub closed spec fn frames(&self) -> Seq<Seq<T>> {
        frame_contents(self.queue@)
    }

    /// The number of buffers waiting in the pool.
    pub closed spec fn pool_len(&self) -> nat {
        self.pool@.len()
    }

    /// The bound on queued frames and pooled buffers together.
    pub closed spec fn spec_capacity(&self) -> nat {
        self.capacity as nat
    }

    /// The frame size that a buffer must have to rejoin the pool.
    pub closed spec fn frame_size(&self) -> nat {
        self.buffer_size as nat
    }

    /// Queued frames and pooled buffers together stay within the capacity.
    pub open spec fn wf(&self) -> bool {
        self.frames().len() + self.pool_len() <= self.spec_capacity()
    }
}

/// One `push` of `data` taking the queue from `before` to `after` and
/// returning `accepted`: it is accepted exactly when fewer than `capacity`
/// frames are queued, and then appends `data`; otherwise the frames stay.
pub open spec fn push_step<T>(
    before: RingBuffer<T>,
    after: RingBuffer<T>,
    data: Seq<T>,
    accepted: bool,
) -> bool {
    &&& accepted == (before.frames().len() < before.spec_capacity())
    &&& after.frames() == if accepted {
        before.frames().push(data)
    } else {
        before.frames()
    }
    &&& after.spec_capacity() == before.spec_capacity()
}

/// One `pop` taking the queue from `before` to `after` and handing out
/// `out`: the oldest frame and the rest, or nothing from an empty queue.
pub open spec fn pop_step<T>(before: RingBuffer<T>, after: RingBuffer<T>, out: Option<Seq<T>>) -> bool {
    &&& if before.frames().len() == 0 {
        out is None && after.frames() == before.frames()
    } else {
        out == Some(before.frames()[0]) && after.frames() == before.frames().drop_first()
    }
    &&& after.spec_capacity() == before.spec_capacity()
}

/// The contents of a frame handed out, if any.
pub open spec fn frame_view<T>(r: Option<Vec<T>>) -> Option<Seq<T>> {
    match r {
        Some(f) => Some(f@),
        None => None,
    }
}

impl<T: Copy> RingBuffer<T> {
    /// An empty queue whose pool holds `capacity` buffers of `buffer_size`.
    pub fn new(capacity: usize, buffer_size: usize) -> (r: Self)
        ensures
            r.wf(),
            r.frames().len() == 0,
            r.pool_len() == capacity,
            r.spec_capacity() == capacity,
            r.frame_size() == buffer_size,
    {
        let mut pool: Vec<Vec<T>> = Vec::new();
        let mut i: usize = 0;
        while i < capacity
            invariant
                i <= capacity,
                pool@.len() == i,
            decreases capacity - i,
        {
            pool.push(Vec::with_capacity(buffer_size));
            i = i + 1;
        }
        RingBuffer { queue: VecDeque::new(), pool, capacity, buffer_size }
    }

    /// Queues a copy of `data`. Fails, changing nothing, when the queue
    /// already holds `capacity` frames. The copy goes into a pooled buffer
    /// when one is available.
    pub fn push(&mut self, data: &[T]) -> (r: bool)
        requires
            old(self).wf(),
        ensures
            final(self).wf(),
            r == (old(self).frames().len() < old(self).spec_capacity()),
            r ==> final(self).frames() == old(self).frames().push(data@),
            !r ==> final(self).frames() == old(self).frames(),
            push_step(*old(self), *final(self), data@, r),
            final(self).pool_len() == if r && old(self).pool_len() > 0 {
                (old(self).pool_len() - 1) as nat
            } else {
                old(self).pool_len()
            },
            final(self).spec_capacity() == old(self).spec_capacity(),
            final(self).frame_size() == old(self).frame_size(),
    {
        if self.queue.len() >= self.capacity {
            return false;
        }
        let mut frame = match self.pool.pop() {
            Some(f) => f,
            None => Vec::with_capacity(data.len()),
        };
        frame.clear();
        let mut i: usize = 0;
        while i < data.len()
            invariant
                i <= data@.len(),
                frame@ == data@.subrange(0, i as int),
            decreases data@.len() - i,
        {
            frame.push(data[i]);
            i = i + 1;
        }
        assert(frame@ == data@);
        let ghost before = self.queue@;
        self.queue.push_back(frame);
        assert(frame_contents(self.queue@) == frame_contents(before).push(data@));
        true
    }

    /// Takes the oldest frame, if any.
    pub fn pop(&mut self) -> (r: Option<Vec<T>>)
        requires
            old(self).wf(),
        ensures
            final(self).wf(),
            old(self).frames().len() == 0 ==> r is None && final(self).frames() == old(
                self,
            ).frames(),
            old(self).frames().len() > 0 ==> (r matches Some(f) && f@ == old(self).frames()[0]),
            old(self).frames().len() > 0 ==> final(self).frames() == old(self).frames().drop_first(),
            pop_step(*old(self), *final(self), frame_view(r)),
            final(self).pool_len() == old(self).pool_len(),
            final(self).spec_capacity() == old(self).spec_capacity(),
            final(self).frame_size() == old(self).frame_size(),
    {
        let ghost before = self.queue@;
        let r = self.queue.pop_front();
        proof {
            if before.len() > 0 {
                assert(frame_contents(self.queue@) == frame_contents(before).drop_first());
            }
        }
        r
    }

    /// Hands a buffer back. It rejoins the pool when its allocation holds
    /// exactly the frame size and there is room; otherwise it is dropped.
    pub fn recycle(&mut self, buffer: Vec<T>)
        requires
            old(self).wf(),
        ensures
            final(self).wf(),
            final(self).frames() == old(self).frames(),
            final(self).pool_len() == old(self).pool_len() || final(self).pool_len()
                == old(self).pool_len() + 1,
            final(self).spec_capacity() == old(self).spec_capacity(),
            final(self).frame_size() == old(self).frame_size(),
    {
        let allocated = vec_capacity(&buffer);
        self.recycle_with_capacity(buffer, allocated);
    }

    /// Hands back a buffer whose allocation holds `allocated` elements: it
    /// is cleared and rejoins the pool exactly when `allocated` equals the
    /// frame size and queued frames and pooled buffers are below capacity.
    pub fn recycle_with_capacity(&mut self, buffer: Vec<T>, allocated: usize)
        requires
            old(self).wf(),
        ensures
            final(self).wf(),
            final(self).frames() == old(self).frames(),
            final(self).pool_len() == if allocated == old(self).frame_size()
                && old(self).frames().len() + old(self).pool_len() < old(self).spec_capacity() {
                old(self).pool_len() + 1
            } else {
                old(self).pool_len()
            },
            final(self).spec_capacity() == old(self).spec_capacity(),
            final(self).frame_size() == old(self).frame_size(),
    {
        let mut buffer = buffer;
        if allocated == self.buffer_size && self.queue.len() + self.pool.len() < self.capacity {
            buffer.clear();
            self.pool.push(buffer);
        }
    }

    /// The number of queued frames.
    pub fn len(&self) -> (r: usize)
        ensures
            r == self.frames().len(),
    {
        self.queue.len()
    }

    pub fn is_empty(&self) -> (r: bool)
        ensures
            r == (self.frames().len() == 0),
    {
        self.queue.len() == 0
    }

    pub fn capacity(&self) -> (r: usize)
        ensures
            r == self.spec_capacity(),
    {
        self.capacity
    }

    /// The number of buffers waiting in the pool.
    pub fn pool_available(&self) -> (r: usize)
        ensures
            r == self.pool_len(),
    {
        self.pool.len()
    }
}

proof fn lemma_pushes_prefix<T>(
    bufs: Seq<RingBuffer<T>>,
    pushed: Seq<Seq<T>>,
    accepted: Seq<bool>,
    k: int,
)
    requires
        0 <= k <= pushed.len(),
        bufs.len() == pushed.len() + 1,
        accepted.len() == pushed.len(),
        bufs[0].frames().len() + pushed.len() <= bufs[0].spec_capacity(),
        forall|i: int|
            0 <= i < pushed.len() ==> push_step(
                #[trigger] bufs[i],
                bufs[i + 1],
                pushed[i],
                accepted[i],
            ),
    ensures
        forall|i: int| 0 <= i < k ==> #[trigger] accepted[i],
        bufs[k].frames() == bufs[0].frames() + pushed.subrange(0, k),
        bufs[k].spec_capacity() == bufs[0].spec_capacity(),
    decreases k,
{
    if k == 0 {
        assert(bufs[0].frames() + pushed.subrange(0, 0) =~= bufs[0].frames());
    } else {
        lemma_pushes_prefix(bufs, pushed, accepted, k - 1);
        assert(push_step(bufs[k - 1], bufs[k], pushed[k - 1], accepted[k - 1]));
        assert(bufs[0].frames() + pushed.subrange(0, k) =~= (bufs[0].frames() + pushed.subrange(
            0,
            k - 1,
        )).push(pushed[k - 1]));
    }
}

/// Pushes within capacity are all accepted and append in order: starting
/// from `bufs[0]`, each `bufs[i + 1]` the result of pushing `pushed[i]`
/// onto `bufs[i]` (returning `accepted[i]`), with room for all of them, every
/// push returns true and the last queue holds the first queue's frames
/// followed by `pushed`.
pub proof fn lemma_pushes_append<T>(
    bufs: Seq<RingBuffer<T>>,
    pushed: Seq<Seq<T>>,
    accepted: Seq<bool>,
)
    requires
        bufs.len() == pushed.len() + 1,
        accepted.len() == pushed.len(),
        bufs[0].frames().len() + pushed.len() <= bufs[0].spec_capacity(),
        forall|i: int|
            0 <= i < pushed.len() ==> push_step(
                #[trigger] bufs[i],
                bufs[i + 1],
                pushed[i],
                accepted[i],
            ),
    ensures
        forall|i: int| 0 <= i < accepted.len() ==> #[trigger] accepted[i],
        bufs.last().frames() == bufs[0].frames() + pushed,
        bufs.last().spec_capacity() == bufs[0].spec_capacity(),
{
    lemma_pushes_prefix(bufs, pushed, accepted, pushed.len() as int);
    assert(pushed.subrange(0, pushed.len() as int) =~= pushed);
}

proof fn lemma_rejects_prefix<T>(
    bufs: Seq<RingBuffer<T>>,
    attempts: Seq<Seq<T>>,
    accepted: Seq<bool>,
    k: int,
)
    requires
        0 <= k <= attempts.len(),
        bufs.len() == attempts.len() + 1,
        accepted.len() == attempts.len(),
        bufs[0].frames().len() >= bufs[0].spec_capacity(),
        forall|i: int|
            0 <= i < attempts.len() ==> push_step(
                #[trigger] bufs[i],
                bufs[i + 1],
                attempts[i],
                accepted[i],
            ),
    ensures
        forall|i: int| 0 <= i < k ==> !#[trigger] accepted[i],
        bufs[k].frames() == bufs[0].frames(),
        bufs[k].spec_capacity() == bufs[0].spec_capacity(),
    decreases k,
{
    if k > 0 {
        lemma_rejects_prefix(bufs, attempts, accepted, k - 1);
        assert(push_step(bufs[k - 1], bufs[k], attempts[k - 1], accepted[k - 1]));
    }
}

/// Pushes on a full queue are all refused and leave its frames as they
/// were: starting from a full `bufs[0]`, each `bufs[i + 1]` the result of
/// pushing `attempts[i]` onto `bufs[i]` (returning `accepted[i]`).
pub proof fn lemma_full_rejects<T>(
    bufs: Seq<RingBuffer<T>>,
    attempts: Seq<Seq<T>>,
    accepted: Seq<bool>,
)
    requires
        bufs.len() == attempts.len() + 1,
        accepted.len() == attempts.len(),
        bufs[0].frames().len() >= bufs[0].spec_capacity(),
        forall|i: int|
            0 <= i < attempts.len() ==> push_step(
                #[trigger] bufs[i],
                bufs[i + 1],
                attempts[i],
                accepted[i],
            ),
    ensures
        forall|i: int| 0 <= i < accepted.len() ==> !#[trigger] accepted[i],
        bufs.last().frames() == bufs[0].frames(),
        bufs.last().spec_capacity() == bufs[0].spec_capacity(),
{
    lemma_rejects_prefix(bufs, attempts, accepted, attempts.len() as int);
}

proof fn lemma_pops_prefix<T>(bufs: Seq<RingBuffer<T>>, outs: Seq<Option<Seq<T>>>, k: int)
    requires
        0 <= k <= outs.len(),
        bufs.len() == outs.len() + 1,
        forall|j: int| 0 <= j < outs.len() ==> pop_step(#[trigger] bufs[j], bufs[j + 1], outs[j]),
    ensures
        forall|j: int|
            0 <= j < k && j < bufs[0].frames().len() ==> #[trigger] outs[j] == Some(
                bufs[0].frames()[j],
            ),
        forall|j: int| 0 <= j < k && j >= bufs[0].frames().len() ==> #[trigger] outs[j] is None,
        bufs[k].frames() == if k <= bufs[0].frames().len() {
            bufs[0].frames().subrange(k, bufs[0].frames().len() as int)
        } else {
            Seq::empty()
        },
    decreases k,
{
    let f = bufs[0].frames();
    if k == 0 {
        assert(f.subrange(0, f.len() as int) =~= f);
    } else {
        lemma_pops_prefix(bufs, outs, k - 1);
        assert(pop_step(bufs[k - 1], bufs[k], outs[k - 1]));
        if k <= f.len() {
            assert(f.subrange(k - 1, f.len() as int)[0] == f[k - 1]);
            assert(f.subrange(k - 1, f.len() as int).drop_first() =~= f.subrange(k, f.len() as int));
        }
    }
}

/// Successive pops hand out the queued frames oldest first, then nothing:
/// starting from `bufs[0]`, each `bufs[j + 1]` the result of popping
/// `outs[j]` from `bufs[j]`.
pub proof fn lemma_pops_drain<T>(bufs: Seq<RingBuffer<T>>, outs: Seq<Option<Seq<T>>>)
    requires
        bufs.len() == outs.len() + 1,
        forall|j: int| 0 <= j < outs.len() ==> pop_step(#[trigger] bufs[j], bufs[j + 1], outs[j]),
    ensures
        forall|j: int|
            0 <= j < outs.len() && j < bufs[0].frames().len() ==> #[trigger] outs[j] == Some(
                bufs[0].frames()[j],
            ),
        forall|j: int| 0 <= j < outs.len() && j >= bufs[0].frames().len() ==> #[trigger] outs[j] is None,
        bufs.last().frames() == if outs.len() <= bufs[0].frames().len() {
            bufs[0].frames().subrange(outs.len() as int, bufs[0].frames().len() as int)
        } else {
            Seq::empty()
        },
{
    lemma_pops_prefix(bufs, outs, outs.len() as int);
}

/// First in, first out: frames pushed one after another onto an empty
/// queue, within its capacity, are all accepted, and successive pops then
/// hand them out in the order pushed and with the contents pushed, then
/// nothing, leaving the queue empty.
pub proof fn lemma_fifo<T>(
    pushes: Seq<RingBuffer<T>>,
    pushed: Seq<Seq<T>>,
    accepted: Seq<bool>,
    pops: Seq<RingBuffer<T>>,
    outs: Seq<Option<Seq<T>>>,
)
    requires
        pushes.len() == pushed.len() + 1,
        accepted.len() == pushed.len(),
        pushes[0].frames().len() == 0,
        pushed.len() <= pushes[0].spec_capacity(),
        forall|i: int|
            0 <= i < pushed.len() ==> push_step(
                #[trigger] pushes[i],
                pushes[i + 1],
                pushed[i],
                accepted[i],
            ),
        pops.len() == outs.len() + 1,
        pops[0] == pushes.last(),
        forall|j: int| 0 <= j < outs.len() ==> pop_step(#[trigger] pops[j], pops[j + 1], outs[j]),
    ensures
        forall|i: int| 0 <= i < accepted.len() ==> #[trigger] accepted[i],
        forall|j: int| 0 <= j < outs.len() && j < pushed.len() ==> #[trigger] outs[j] == Some(pushed[j]),
        forall|j: int| 0 <= j < outs.len() && j >= pushed.len() ==> #[trigger] outs[j] is None,
        outs.len() >= pushed.len() ==> pops.last().frames().len() == 0,
{
    lemma_pushes_append(pushes, pushed, accepted);
    assert(pushes[0].frames() + pushed =~= pushed);
    lemma_pops_drain(pops, outs);
}

/// A full queue survives overflow: `capacity` frames pushed onto an empty
/// queue are all accepted, any number of further pushes are all refused,
/// and successive pops then hand out exactly the accepted frames in order,
/// then nothing; no refused frame ever comes out.
pub proof fn lemma_overflow_keeps_queue<T>(
    fills: Seq<RingBuffer<T>>,
    filled: Seq<Seq<T>>,
    fill_accepted: Seq<bool>,
    extras: Seq<RingBuffer<T>>,
    refused: Seq<Seq<T>>,
    extra_accepted: Seq<bool>,
    pops: Seq<RingBuffer<T>>,
    outs: Seq<Option<Seq<T>>>,
)
    requires
        fills.len() == filled.len() + 1,
        fill_accepted.len() == filled.len(),
        fills[0].frames().len() == 0,
        filled.len() == fills[0].spec_capacity(),
        forall|i: int|
            0 <= i < filled.len() ==> push_step(
                #[trigger] fills[i],
                fills[i + 1],
                filled[i],
                fill_accepted[i],
            ),
        extras.len() == refused.len() + 1,
        extra_accepted.len() == refused.len(),
        extras[0] == fills.last(),
        forall|i: int|
            0 <= i < refused.len() ==> push_step(
                #[trigger] extras[i],
                extras[i + 1],
                refused[i],
                extra_accepted[i],
            ),
        pops.len() == outs.len() + 1,
        pops[0] == extras.last(),
        forall|j: int| 0 <= j < outs.len() ==> pop_step(#[trigger] pops[j], pops[j + 1], outs[j]),
    ensures
        forall|i: int| 0 <= i < fill_accepted.len() ==> #[trigger] fill_accepted[i],
        forall|i: int| 0 <= i < extra_accepted.len() ==> !#[trigger] extra_accepted[i],
        forall|j: int| 0 <= j < outs.len() && j < filled.len() ==> #[trigger] outs[j] == Some(filled[j]),
        forall|j: int| 0 <= j < outs.len() && j >= filled.len() ==> #[trigger] outs[j] is None,
{
    lemma_pushes_append(fills, filled, fill_accepted);
    assert(fills[0].frames() + filled =~= filled);
    lemma_full_rejects(extras, refused, extra_accepted);
    lemma_pops_drain(pops, outs);
}

} // verus!
