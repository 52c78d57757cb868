//! A bounded queue of frames that makes room by dropping the oldest.
//!
//! The queue is `ArrayQueue` of `crossbeam`. The two samples of a frame are kept as
//! the 32 bits that a floating-point number has.
use crate::frame::Frame;
use crossbeam::queue::ArrayQueue;
use vstd::prelude::*;

verus! {

/// `ArrayQueue` of `crossbeam`, a bounded queue.
#[verifier::external_type_specification]
#[verifier::external_body]
#[verifier::reject_recursive_types(T)]
pub struct ExArrayQueue<T>(ArrayQueue<T>);

/// What a queue holds, the oldest item first.
pub uninterp spec fn queue_contents(queue: ArrayQueue<(u32, u32)>) -> Seq<(u32, u32)>;

/// How many items a queue has room for.
pub uninterp spec fn queue_capacity(queue: ArrayQueue<(u32, u32)>) -> nat;

/// Calls `ArrayQueue::new` of `crossbeam`, which makes an empty queue with room for `cap`
/// items. It panics where that is none, or more than memory can have.
#[verifier::external_body]
fn new_queue(cap: usize) -> (r: ArrayQueue<(u32, u32)>)
    requires
        0 < cap <= usize::MAX / 32,
    ensures
        queue_contents(r) == Seq::<(u32, u32)>::empty(),
        queue_capacity(r) == cap,
{
    ArrayQueue::new(cap)
}

/// Calls `ArrayQueue::force_push` of `crossbeam`, which appends an item, and takes out the
/// oldest one where the queue is full.
#[verifier::external_body]
fn force_push(queue: &mut ArrayQueue<(u32, u32)>, value: (u32, u32)) -> (r: Option<(u32, u32)>)
    ensures
        queue_capacity(*final(queue)) == queue_capacity(*old(queue)),
        queue_contents(*old(queue)).len() < queue_capacity(*old(queue)) ==> {
            &&& r is None
            &&& queue_contents(*final(queue)) == queue_contents(*old(queue)).push(value)
        },
        queue_contents(*old(queue)).len() == queue_capacity(*old(queue)) ==> {
            &&& r == Some(queue_contents(*old(queue))[0])
            &&& queue_contents(*final(queue)) == queue_contents(*old(queue)).skip(1).push(value)
        },
{
    queue.force_push(value)
}

/// Calls `ArrayQueue::pop` of `crossbeam`, which takes out the oldest item.
#[verifier::external_body]
fn pop(queue: &mut ArrayQueue<(u32, u32)>) -> (r: Option<(u32, u32)>)
    ensures
        queue_capacity(*final(queue)) == queue_capacity(*old(queue)),
        queue_contents(*old(queue)).len() == 0 ==> {
            &&& r is None
            &&& queue_contents(*final(queue)) == queue_contents(*old(queue))
        },
        queue_contents(*old(queue)).len() > 0 ==> {
            &&& r == Some(queue_contents(*old(queue))[0])
            &&& queue_contents(*final(queue)) == queue_contents(*old(queue)).skip(1)
        },
{
    queue.pop()
}

/// Calls `ArrayQueue::len` of `crossbeam`, which counts the items.
#[verifier::external_body]
fn queue_len(queue: &ArrayQueue<(u32, u32)>) -> (r: usize)
    ensures
        r == queue_contents(*queue).len(),
{
    queue.len()
}

/// Calls `ArrayQueue::capacity` of `crossbeam`, which tells how many items there is room
/// for.
#[verifier::external_body]
fn queue_room(queue: &ArrayQueue<(u32, u32)>) -> (r: usize)
    ensures
        r == queue_capacity(*queue),
{
    queue.capacity()
}

/// The frame of a pair of samples.
pub open spec fn frame_of(pair: (u32, u32)) -> Frame<u32> {
    Frame { left: pair.0, right: pair.1 }
}

/// What a queue with room for `limit` items keeps of all that it was given.
pub open spec fn retained<T>(given: Seq<T>, limit: int) -> Seq<T> {
    if given.len() <= limit {
        given
    } else {
        given.skip(given.len() - limit)
    }
}

/// A bounded queue of frames.
pub struct RingBuffer {
    queue: ArrayQueue<(u32, u32)>,
}

impl View for RingBuffer {
    type V = Seq<Frame<u32>>;

    /// The frames, the oldest first.
    closed spec fn view(&self) -> Seq<Frame<u32>> {
        queue_contents(self.queue).map_values(|pair: (u32, u32)| frame_of(pair))
    }
}

impl RingBuffer {
    /// There is room for some frames, and no more are held than there is room for.
    pub closed spec fn wf(&self) -> bool {
        &&& queue_capacity(self.queue) > 0
        &&& queue_contents(self.queue).len() <= queue_capacity(self.queue)
    }

    /// How many frames there is room for.
    pub closed spec fn limit(&self) -> nat {
        queue_capacity(self.queue)
    }

    /// An empty queue with room for `capacity` frames.
    pub fn new(capacity: usize) -> (r: Self)
        requires
            0 < capacity <= usize::MAX / 32,
        ensures
            r.wf(),
            r.limit() == capacity,
            r@ == Seq::<Frame<u32>>::empty(),
    {
        let r = RingBuffer { queue: new_queue(capacity) };
        assert(r@ =~= Seq::<Frame<u32>>::empty());
        r
    }

    /// How many frames there is room for.
    pub fn capacity(&self) -> (r: usize)
        ensures
            r == self.limit(),
    {
        queue_room(&self.queue)
    }

    /// How many frames are held.
    pub fn len(&self) -> (r: usize)
        ensures
            r == self@.len(),
    {
        queue_len(&self.queue)
    }

    /// Appends a frame, and drops the oldest one where there is no room.
    fn push(&mut self, frame: Frame<u32>)
        requires
            old(self).wf(),
        ensures
            final(self).wf(),
            final(self).limit() == old(self).limit(),
            final(self)@ == retained(old(self)@.push(frame), old(self).limit() as int),
    {
        let _ = force_push(&mut self.queue, (frame.left, frame.right));
        assert(self@ =~= retained(old(self)@.push(frame), old(self).limit() as int));
    }

    /// Takes the oldest frame.
    fn pop(&mut self) -> (r: Option<Frame<u32>>)
        requires
            old(self).wf(),
        ensures
            final(self).wf(),
            final(self).limit() == old(self).limit(),
            r is Some <==> old(self)@.len() > 0,
            r is Some ==> r->0 == old(self)@[0] && final(self)@ == old(self)@.skip(1),
            r is None ==> final(self)@ == old(self)@,
    {
        match pop(&mut self.queue) {
            Some((left, right)) => {
                assert(self@ =~= old(self)@.skip(1));
                Some(Frame { left, right })
            },
            None => None,
        }
    }

    /// Appends frames in order, and drops as many of the oldest ones as there is no room
    /// for.
    pub fn extend(&mut self, frames: &Vec<Frame<u32>>)
        requires
            old(self).wf(),
        ensures
            final(self).wf(),
            final(self).limit() == old(self).limit(),
            final(self)@ == retained(old(self)@ + frames@, old(self).limit() as int),
            old(self)@.len() + frames@.len() <= old(self).limit() ==> final(self)@ == old(self)@
                + frames@,
            old(self)@.len() + frames@.len() > old(self).limit() ==> final(self)@.len() == old(
                self,
            ).limit(),
            (old(self)@ + frames@).skip(
                old(self)@.len() + frames@.len() - final(self)@.len(),
            ) == final(self)@,
    {
        let ghost held = self@;
        let ghost limit = self.limit() as int;
        let mut i: usize = 0;
        assert(held + frames@.take(0) =~= held);
        while i < frames.len()
            invariant
                i <= frames@.len(),
                held == old(self)@,
                limit == old(self).limit(),
                limit > 0,
                self.wf(),
                self.limit() == limit,
                self@ == retained(held + frames@.take(i as int), limit),
            decreases frames@.len() - i,
        {
            let ghost before = held + frames@.take(i as int);
            self.push(frames[i]);
            i += 1;
            proof {
                assert(held + frames@.take(i as int) =~= before.push(frames@[i - 1]));
                law_keeping_the_newest_is_one_step_at_a_time(before, frames@[i - 1], limit);
            }
        }
        assert(frames@.take(i as int) =~= frames@);
        assert((held + frames@).skip(held.len() + frames@.len() - self@.len()) =~= self@);
    }

    /// Takes the `limit` oldest frames, or all where there are fewer.
    pub fn take(&mut self, limit: usize) -> (r: Vec<Frame<u32>>)
        requires
            old(self).wf(),
        ensures
            final(self).wf(),
            final(self).limit() == old(self).limit(),
            r@ == old(self)@.take(crate::ring::at_most(old(self)@, limit as int)),
            final(self)@ == old(self)@.skip(crate::ring::at_most(old(self)@, limit as int)),
            r@ + final(self)@ == old(self)@,
            r@.len() <= limit,
            r@.len() == limit || final(self)@.len() == 0,
    {
        let mut r: Vec<Frame<u32>> = Vec::new();
        let ghost held = self@;
        assert(held.skip(0) =~= held);
        while r.len() < limit
            invariant
                self.wf(),
                self.limit() == old(self).limit(),
                held == old(self)@,
                r@.len() <= limit,
                r@.len() <= held.len(),
                r@ == held.take(r@.len() as int),
                self@ == held.skip(r@.len() as int),
            ensures
                r@.len() == crate::ring::at_most(held, limit as int),
            decreases limit - r@.len(),
        {
            match self.pop() {
                Some(frame) => {
                    let ghost taken = r@.len() as int;
                    r.push(frame);
                    proof {
                        assert(held.skip(taken).skip(1) =~= held.skip(taken + 1));
                        assert(held.take(taken).push(held[taken]) =~= held.take(taken + 1));
                    }
                },
                None => {
                    break;
                },
            }
        }
        r
    }

    /// Takes all frames, the oldest first.
    pub fn drain(&mut self) -> (r: Vec<Frame<u32>>)
        requires
            old(self).wf(),
        ensures
            final(self).wf(),
            final(self).limit() == old(self).limit(),
            r@ == old(self)@,
            final(self)@ == Seq::<Frame<u32>>::empty(),
    {
        let limit: usize = self.len();
        let r = self.take(limit);
        assert(old(self)@.take(limit as int) =~= old(self)@);
        assert(old(self)@.skip(limit as int) =~= Seq::<Frame<u32>>::empty());
        r
    }
}

/// A queue that drops the oldest item each time there is no room holds the newest of all
/// that it was given.
pub proof fn law_keeping_the_newest_is_one_step_at_a_time<T>(given: Seq<T>, item: T, limit: int)
    requires
        limit > 0,
    ensures
        retained(retained(given, limit).push(item), limit) == retained(given.push(item), limit),
{
    assert(retained(retained(given, limit).push(item), limit) =~= retained(
        given.push(item),
        limit,
    ));
}

/// A queue keeps all that it was given where it has room, and the newest that it has room
/// for where it has not; those are in order, and nothing in between is left out.
pub proof fn law_the_newest_are_kept<T>(given: Seq<T>, limit: int)
    requires
        0 <= limit,
    ensures
        given.len() <= limit ==> retained(given, limit) == given,
        given.len() > limit ==> retained(given, limit).len() == limit,
        given.take(given.len() - retained(given, limit).len()) + retained(given, limit) == given,
{
    assert(given.take(given.len() - retained(given, limit).len()) + retained(given, limit)
        =~= given);
}

/// A frame keeps the two samples of a pair, the first one on the left.
pub proof fn law_a_frame_keeps_its_pair(pair: (u32, u32))
    ensures
        frame_of(pair).left == pair.0,
        frame_of(pair).right == pair.1,
{
}

} // verus!
