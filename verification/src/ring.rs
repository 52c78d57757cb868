//! A bounded ring with one producer and one consumer.
//!
//! The ring has `N` slots, one of which always stays free, so that `head == tail`
//! means empty and nothing else. The producer moves only `tail`, the consumer
//! moves only `head`, and each keeps a copy of the index that it owns.
use core::marker::PhantomData;
use core::mem::ManuallyDrop;
use vstd::prelude::*;

verus! {

/// The index that follows `index` among `n` slots.
pub open spec fn next_index(index: int, n: int) -> int {
    if index + 1 == n {
        0
    } else {
        index + 1
    }
}

/// The slot that lies `offset` places behind `head` among `n` slots.
pub open spec fn slot_at(head: int, offset: int, n: int) -> int {
    if head + offset < n {
        head + offset
    } else {
        head + offset - n
    }
}

/// How many places `tail` lies behind `head` among `n` slots.
pub open spec fn distance(head: int, tail: int, n: int) -> int {
    if head <= tail {
        tail - head
    } else {
        n + tail - head
    }
}

/// The part of `values` for which a ring of `n` slots that holds `held` has room.
pub open spec fn room_for<T>(held: Seq<T>, values: Seq<T>, n: int) -> int {
    if held.len() + values.len() < n {
        values.len() as int
    } else {
        n - 1 - held.len()
    }
}

/// The first `limit` items of `held`, or all of them where there are fewer.
pub open spec fn at_most<T>(held: Seq<T>, limit: int) -> int {
    if held.len() < limit {
        held.len() as int
    } else {
        limit
    }
}

/// The shared part of a ring: its slots, its two indices, whether its two ends are
/// in use, and whether a reader waits for items or is to be woken.
pub struct Ring<T, const N: usize> {
    producer: bool,
    consumer: bool,
    waiting: bool,
    woken: bool,
    head: usize,
    tail: usize,
    values: Vec<Option<T>>,
}

impl<T, const N: usize> View for Ring<T, N> {
    type V = Seq<T>;

    /// What the ring holds, the oldest item first.
    closed spec fn view(&self) -> Seq<T> {
        Seq::new(
            distance(self.head as int, self.tail as int, N as int) as nat,
            |i: int| self.values@[slot_at(self.head as int, i, N as int)].unwrap(),
        )
    }
}

impl<T, const N: usize> Ring<T, N> {
    /// Both indices point into the slots, exactly the slots from `head` up to `tail`
    /// are filled, and a reader waits only while none is.
    pub closed spec fn wf(&self) -> bool {
        &&& 0 < N <= usize::MAX / 2
        &&& self.head < N
        &&& self.tail < N
        &&& self.values@.len() == N
        &&& self.waiting ==> self.head == self.tail
        &&& forall|i: int|
            0 <= i < N ==> (#[trigger] self.values@[i] is Some <==> distance(
                self.head as int,
                i,
                N as int,
            ) < distance(self.head as int, self.tail as int, N as int))
    }

    /// Whether a producer is in use.
    pub closed spec fn has_producer(&self) -> bool {
        self.producer
    }

    /// Whether a consumer is in use.
    pub closed spec fn has_consumer(&self) -> bool {
        self.consumer
    }

    /// Whether a reader has left its waker with the ring, and was not woken since.
    pub closed spec fn has_waiter(&self) -> bool {
        self.waiting
    }

    /// Whether a reader that has left its waker with the ring is to be woken.
    pub closed spec fn must_wake(&self) -> bool {
        self.woken
    }

    /// Whether nobody has come to wait or was called since `other`.
    pub open spec fn same_calls(&self, other: Self) -> bool {
        &&& self.has_waiter() == other.has_waiter()
        &&& self.must_wake() == other.must_wake()
    }

    /// Whether a reader that waited at `other` has been called if `count` items were
    /// written since, and not if there were none.
    pub open spec fn called_since(&self, other: Self, count: int) -> bool {
        &&& self.has_waiter() == (other.has_waiter() && count == 0)
        &&& self.must_wake() == (other.must_wake() || other.has_waiter() && count > 0)
    }

    /// Where the consumer reads next.
    pub closed spec fn head_index(&self) -> int {
        self.head as int
    }

    /// Where the producer writes next.
    pub closed spec fn tail_index(&self) -> int {
        self.tail as int
    }

    /// A ring holds fewer than `N` items, as many as the consumer has to go to
    /// reach the producer.
    pub proof fn lemma_bounded(&self)
        requires
            self.wf(),
        ensures
            self@.len() < N,
            0 <= self.head_index() < N,
            0 <= self.tail_index() < N,
            self@.len() == distance(self.head_index(), self.tail_index(), N as int),
    {
    }

    fn empty() -> (r: Self)
        ensures
            0 < N <= usize::MAX / 2 ==> r.wf(),
            r@ == Seq::<T>::empty(),
            !r.has_producer(),
            !r.has_consumer(),
            !r.has_waiter(),
            !r.must_wake(),
            r.head_index() == 0,
            r.tail_index() == 0,
    {
        let mut values: Vec<Option<T>> = Vec::new();
        let mut i: usize = 0;
        while i < N
            invariant
                i <= N,
                values@.len() == i,
                forall|j: int| 0 <= j < i ==> #[trigger] values@[j] is None,
            decreases N - i,
        {
            values.push(None);
            i += 1;
        }
        let r = Ring {
            producer: false,
            consumer: false,
            waiting: false,
            woken: false,
            head: 0,
            tail: 0,
            values,
        };
        assert(r@ =~= Seq::<T>::empty());
        r
    }

    /// A ring that holds nothing and whose two ends are free. One slot stays free,
    /// so that it has room for `N - 1` items.
    pub fn new() -> (r: Self)
        requires
            0 < N <= usize::MAX / 2,
        ensures
            r.wf(),
            r@ == Seq::<T>::empty(),
            !r.has_producer(),
            !r.has_consumer(),
            !r.has_waiter(),
            !r.must_wake(),
            r.head_index() == 0,
            r.tail_index() == 0,
    {
        Self::empty()
    }

    /// Whether the ring holds nothing.
    pub fn is_empty(&self) -> (r: bool)
        requires
            self.wf(),
        ensures
            r == (self@.len() == 0),
    {
        self.head == self.tail
    }

    /// How many items the ring holds.
    pub fn len(&self) -> (r: usize)
        requires
            self.wf(),
        ensures
            r == self@.len(),
            r < N,
    {
        proof {
            lemma_wrapped_difference(self.head as int, self.tail as int, N as int);
        }
        (N + self.tail - self.head) % N
    }

    /// Takes the reading end, unless it is in use.
    pub fn consumer(&mut self) -> (r: Option<Consumer<T, N>>)
        requires
            old(self).wf(),
        ensures
            final(self).wf(),
            final(self)@ == old(self)@,
            final(self).head_index() == old(self).head_index(),
            final(self).tail_index() == old(self).tail_index(),
            final(self).same_calls(*old(self)),
            final(self).has_producer() == old(self).has_producer(),
            final(self).has_consumer(),
            r is Some <==> !old(self).has_consumer(),
            r is Some ==> r->0.reads(*final(self)),
    {
        if self.consumer {
            None
        } else {
            self.consumer = true;
            Some(Consumer { head: self.head, marker: PhantomData })
        }
    }

    /// Takes the writing end, unless it is in use.
    pub fn producer(&mut self) -> (r: Option<Producer<T, N>>)
        requires
            old(self).wf(),
        ensures
            final(self).wf(),
            final(self)@ == old(self)@,
            final(self).head_index() == old(self).head_index(),
            final(self).tail_index() == old(self).tail_index(),
            final(self).same_calls(*old(self)),
            final(self).has_consumer() == old(self).has_consumer(),
            final(self).has_producer(),
            r is Some <==> !old(self).has_producer(),
            r is Some ==> r->0.writes(*final(self)),
    {
        if self.producer {
            None
        } else {
            self.producer = true;
            Some(Producer { tail: self.tail, marker: PhantomData })
        }
    }

    /// Whether a reader that has left its waker with the ring is to be woken. One who asks
    /// does that, so that it is not to be done again.
    pub fn take_wake(&mut self) -> (r: bool)
        requires
            old(self).wf(),
        ensures
            final(self).wf(),
            r == old(self).must_wake(),
            !final(self).must_wake(),
            final(self).has_waiter() == old(self).has_waiter(),
            final(self)@ == old(self)@,
            final(self).has_producer() == old(self).has_producer(),
            final(self).has_consumer() == old(self).has_consumer(),
            final(self).head_index() == old(self).head_index(),
            final(self).tail_index() == old(self).tail_index(),
    {
        let r: bool = self.woken;
        self.woken = false;
        assert(self@ =~= old(self)@);
        r
    }

    /// Gives the ring up, and hands back the items that are to be dropped with it. Those are
    /// all that it holds, the oldest first, as long as they do not go round the end of the
    /// slots. Where they do, none is handed back, and none is dropped.
    pub fn release(self) -> (r: Vec<T>)
        requires
            self.wf(),
        ensures
            r@ == if self.head_index() <= self.tail_index() {
                self@
            } else {
                Seq::<T>::empty()
            },
    {
        let mut ring = self;
        let mut r: Vec<T> = Vec::new();
        let mut i: usize = ring.head;
        while i < ring.tail
            invariant
                self.wf(),
                ring.head == self.head,
                ring.tail == self.tail,
                ring.values@.len() == N,
                self.head <= self.tail ==> self.head <= i <= self.tail,
                self.head > self.tail ==> i == self.head,
                forall|j: int| i <= j < N ==> #[trigger] ring.values@[j] == self.values@[j],
                r@ =~= Seq::new((i - self.head) as nat, |j: int| self@[j]),
            decreases ring.tail - i,
        {
            let mut value: Option<T> = None;
            core::mem::swap(&mut value, &mut ring.values[i]);
            if let Some(item) = value {
                r.push(item);
            }
            i += 1;
        }
        let mut left: usize = 0;
        while left < N
            invariant
                left <= N,
                ring.values@.len() == N,
            decreases N - left,
        {
            let mut value: Option<T> = None;
            core::mem::swap(&mut value, &mut ring.values[left]);
            let _ = ManuallyDrop::new(value);
            left += 1;
        }
        r
    }
}

impl<T, const N: usize> Default for Ring<T, N> {
    fn default() -> (r: Self)
        ensures
            0 < N <= usize::MAX / 2 ==> r.wf(),
            r@ == Seq::<T>::empty(),
            !r.has_producer(),
            !r.has_consumer(),
            !r.has_waiter(),
            !r.must_wake(),
            r.head_index() == 0,
            r.tail_index() == 0,
    {
        Self::empty()
    }
}

/// The reading end of a ring.
pub struct Consumer<T, const N: usize> {
    head: usize,
    marker: PhantomData<T>,
}

impl<T, const N: usize> Consumer<T, N> {
    /// The index that this end keeps: where it reads next.
    pub closed spec fn position(&self) -> int {
        self.head as int
    }

    /// Whether this can be the reading end of `ring`: that end is in use, and reads next where
    /// this one does. The end of another ring that stands at the same place is not told from
    /// it.
    pub open spec fn reads(&self, ring: Ring<T, N>) -> bool {
        ring.has_consumer() && self.position() == ring.head_index()
    }

    /// Whether there is nothing to read.
    pub fn is_empty(&self, ring: &Ring<T, N>) -> (r: bool)
        requires
            ring.wf(),
            self.reads(*ring),
        ensures
            r == (ring@.len() == 0),
    {
        self.head == ring.tail
    }

    /// How many items there are to read.
    pub fn len(&self, ring: &Ring<T, N>) -> (r: usize)
        requires
            ring.wf(),
            self.reads(*ring),
        ensures
            r == ring@.len(),
            r < N,
    {
        proof {
            lemma_wrapped_difference(self.head as int, ring.tail as int, N as int);
        }
        (N + ring.tail - self.head) % N
    }

    /// Takes the oldest item.
    pub fn pop(&mut self, ring: &mut Ring<T, N>) -> (r: Option<T>)
        requires
            old(ring).wf(),
            old(self).reads(*old(ring)),
        ensures
            final(ring).wf(),
            final(self).reads(*final(ring)),
            final(ring).same_calls(*old(ring)),
            final(ring).has_producer() == old(ring).has_producer(),
            final(ring).tail_index() == old(ring).tail_index(),
            r is Some <==> old(ring)@.len() > 0,
            r is Some ==> {
                &&& r->0 == old(ring)@[0]
                &&& final(ring)@ == old(ring)@.skip(1)
                &&& final(ring).head_index() == next_index(old(ring).head_index(), N as int)
            },
            r is None ==> *final(ring) == *old(ring) && *final(self) == *old(self),
    {
        let head: usize = self.head;
        if head == ring.tail {
            return None;
        }
        proof {
            lemma_wrapped_successor(head as int, N as int);
        }
        let mut value: Option<T> = None;
        core::mem::swap(&mut value, &mut ring.values[head]);
        let next_head: usize = (head + 1) % N;
        self.head = next_head;
        ring.head = next_head;
        assert(ring@ =~= old(ring)@.skip(1));
        value
    }

    /// Takes everything there is to read, the oldest item first.
    pub fn drain(&mut self, ring: &mut Ring<T, N>) -> (r: Vec<T>)
        requires
            old(ring).wf(),
            old(self).reads(*old(ring)),
        ensures
            final(ring).wf(),
            final(self).reads(*final(ring)),
            final(ring).same_calls(*old(ring)),
            final(ring).has_producer() == old(ring).has_producer(),
            final(ring).tail_index() == old(ring).tail_index(),
            r@ == old(ring)@,
            final(ring)@ == Seq::<T>::empty(),
    {
        let limit: usize = self.len(ring);
        let r = self.take(ring, limit);
        assert(old(ring)@.take(limit as int) =~= old(ring)@);
        assert(old(ring)@.skip(limit as int) =~= Seq::<T>::empty());
        r
    }

    /// Takes the `limit` oldest items, or all where there are fewer.
    pub fn take(&mut self, ring: &mut Ring<T, N>, limit: usize) -> (r: Vec<T>)
        requires
            old(ring).wf(),
            old(self).reads(*old(ring)),
        ensures
            final(ring).wf(),
            final(self).reads(*final(ring)),
            final(ring).same_calls(*old(ring)),
            final(ring).has_producer() == old(ring).has_producer(),
            final(ring).tail_index() == old(ring).tail_index(),
            r@ == old(ring)@.take(at_most(old(ring)@, limit as int)),
            final(ring)@ == old(ring)@.skip(at_most(old(ring)@, limit as int)),
            r@ + final(ring)@ == old(ring)@,
            r@.len() <= limit,
            r@.len() == limit || final(ring)@.len() == 0,
    {
        let mut r: Vec<T> = Vec::new();
        let ghost held = ring@;
        proof {
            assert(held.skip(0) =~= held);
        }
        while r.len() < limit
            invariant_except_break
                r@.len() <= limit,
            invariant
                ring.wf(),
                self.reads(*ring),
                ring.same_calls(*old(ring)),
                ring.has_producer() == old(ring).has_producer(),
                ring.tail_index() == old(ring).tail_index(),
                held == old(ring)@,
                r@.len() <= held.len(),
                r@ == held.take(r@.len() as int),
                ring@ == held.skip(r@.len() as int),
            ensures
                r@.len() == at_most(held, limit as int),
            decreases limit - r@.len(),
        {
            match self.pop(ring) {
                Some(value) => {
                    let ghost taken = r@.len() as int;
                    r.push(value);
                    proof {
                        assert(held.skip(taken).skip(1) =~= held.skip(taken + 1));
                        assert(held.take(taken).push(held[taken]) =~= held.take(taken + 1));
                    }
                },
                None => {
                    break;
                },
            }
        }
        r
    }

    /// Whether a reader that waits for items may go on. Where it may not, it leaves its
    /// waker with the ring, to be called by the next item that is written. Nothing is
    /// taken from the ring.
    pub fn notified(&self, ring: &mut Ring<T, N>) -> (r: bool)
        requires
            old(ring).wf(),
            self.reads(*old(ring)),
        ensures
            final(ring).wf(),
            self.reads(*final(ring)),
            r == (old(ring)@.len() > 0),
            final(ring)@ == old(ring)@,
            final(ring).has_producer() == old(ring).has_producer(),
            final(ring).head_index() == old(ring).head_index(),
            final(ring).tail_index() == old(ring).tail_index(),
            final(ring).must_wake() == old(ring).must_wake(),
            final(ring).has_waiter() == (old(ring).has_waiter() || !r),
    {
        if self.head != ring.tail {
            return true;
        }
        ring.waiting = true;
        assert(ring@ =~= old(ring)@);
        false
    }

    /// Gives the reading end back.
    pub fn release(self, ring: &mut Ring<T, N>)
        requires
            old(ring).wf(),
            self.reads(*old(ring)),
        ensures
            final(ring).wf(),
            final(ring)@ == old(ring)@,
            final(ring).same_calls(*old(ring)),
            !final(ring).has_consumer(),
            final(ring).has_producer() == old(ring).has_producer(),
            final(ring).head_index() == old(ring).head_index(),
            final(ring).tail_index() == old(ring).tail_index(),
    {
        ring.consumer = false;
    }
}

/// The writing end of a ring.
pub struct Producer<T, const N: usize> {
    tail: usize,
    marker: PhantomData<T>,
}

impl<T, const N: usize> Producer<T, N> {
    /// The index that this end keeps: where it writes next.
    pub closed spec fn position(&self) -> int {
        self.tail as int
    }

    /// Whether this can be the writing end of `ring`: that end is in use, and writes next
    /// where this one does. The end of another ring that stands at the same place is not told
    /// from it.
    pub open spec fn writes(&self, ring: Ring<T, N>) -> bool {
        ring.has_producer() && self.position() == ring.tail_index()
    }

    /// Whether everything written has been read.
    pub fn is_empty(&self, ring: &Ring<T, N>) -> (r: bool)
        requires
            ring.wf(),
            self.writes(*ring),
        ensures
            r == (ring@.len() == 0),
    {
        ring.head == self.tail
    }

    /// How many items are still to be read.
    pub fn len(&self, ring: &Ring<T, N>) -> (r: usize)
        requires
            ring.wf(),
            self.writes(*ring),
        ensures
            r == ring@.len(),
            r < N,
    {
        proof {
            lemma_wrapped_difference(ring.head as int, self.tail as int, N as int);
        }
        (N + self.tail - ring.head) % N
    }

    /// Appends `value`, or hands it back where the ring is full.
    pub fn push(&mut self, ring: &mut Ring<T, N>, value: T) -> (r: Result<(), T>)
        requires
            old(ring).wf(),
            old(self).writes(*old(ring)),
        ensures
            final(ring).wf(),
            final(self).writes(*final(ring)),
            final(ring).has_consumer() == old(ring).has_consumer(),
            final(ring).head_index() == old(ring).head_index(),
            r is Ok <==> old(ring)@.len() + 1 < N,
            r is Ok ==> {
                &&& final(ring).called_since(*old(ring), 1)
                &&& final(ring)@ == old(ring)@.push(value)
                &&& final(ring).tail_index() == next_index(old(ring).tail_index(), N as int)
            },
            r is Err ==> {
                &&& r->Err_0 == value
                &&& *final(ring) == *old(ring)
                &&& *final(self) == *old(self)
            },
    {
        let tail: usize = self.tail;
        proof {
            lemma_wrapped_successor(tail as int, N as int);
        }
        let next_tail: usize = (tail + 1) % N;
        if next_tail == ring.head {
            return Err(value);
        }
        ring.values[tail] = Some(value);
        self.tail = next_tail;
        ring.tail = next_tail;
        if ring.waiting {
            ring.waiting = false;
            ring.woken = true;
        }
        assert(ring@ =~= old(ring)@.push(value));
        Ok(())
    }

    /// Appends `values` in order as long as there is room, and hands the rest back.
    pub fn extend(&mut self, ring: &mut Ring<T, N>, values: Vec<T>) -> (r: Result<(), Vec<T>>)
        requires
            old(ring).wf(),
            old(self).writes(*old(ring)),
        ensures
            final(ring).wf(),
            final(self).writes(*final(ring)),
            final(ring).has_consumer() == old(ring).has_consumer(),
            final(ring).head_index() == old(ring).head_index(),
            final(ring).called_since(*old(ring), room_for(old(ring)@, values@, N as int)),
            final(ring)@ == old(ring)@ + values@.take(room_for(old(ring)@, values@, N as int)),
            r is Ok <==> old(ring)@.len() + values@.len() < N,
            r is Ok ==> final(ring)@ == old(ring)@ + values@,
            r is Err ==> r->Err_0@ == values@.skip(room_for(old(ring)@, values@, N as int)),
            r is Err ==> {
                &&& final(ring)@.len() == N - 1
                &&& final(ring)@ + r->Err_0@ == old(ring)@ + values@
            },
    {
        let ghost held = ring@;
        let ghost room = room_for(held, values@, N as int);
        let ghost given = values@;
        let mut rest: Vec<T> = Vec::new();
        proof {
            ring.lemma_bounded();
            assert(held + given.take(0) =~= held);
            assert(given.skip(0) =~= given);
        }
        for value in it: values
            invariant
                it.seq() == given,
                room == room_for(held, given, N as int),
                0 <= room <= given.len(),
                held == old(ring)@,
                ring.wf(),
                self.writes(*ring),
                ring.has_consumer() == old(ring).has_consumer(),
                ring.head_index() == old(ring).head_index(),
                it.index() <= room ==> {
                    &&& rest@ == Seq::<T>::empty()
                    &&& ring@ == held + given.take(it.index())
                    &&& ring.called_since(*old(ring), it.index())
                },
                it.index() > room ==> {
                    &&& rest@ == given.subrange(room, it.index())
                    &&& ring@ == held + given.take(room)
                    &&& ring.called_since(*old(ring), room)
                },
        {
            let ghost i = it.index();
            if rest.len() > 0 {
                rest.push(value);
                assert(rest@ =~= given.subrange(room, i + 1));
            } else {
                match self.push(ring, value) {
                    Ok(()) => {
                        assert(ring@ =~= held + given.take(i + 1));
                    },
                    Err(value) => {
                        rest.push(value);
                        assert(rest@ =~= given.subrange(room, i + 1));
                    },
                }
            }
        }
        proof {
            assert(given.subrange(room, given.len() as int) =~= given.skip(room));
        }
        if rest.len() == 0 {
            Ok(())
        } else {
            Err(rest)
        }
    }

    /// Gives the writing end back.
    pub fn release(self, ring: &mut Ring<T, N>)
        requires
            old(ring).wf(),
            self.writes(*old(ring)),
        ensures
            final(ring).wf(),
            final(ring)@ == old(ring)@,
            final(ring).same_calls(*old(ring)),
            !final(ring).has_producer(),
            final(ring).has_consumer() == old(ring).has_consumer(),
            final(ring).head_index() == old(ring).head_index(),
            final(ring).tail_index() == old(ring).tail_index(),
    {
        ring.producer = false;
    }
}

proof fn lemma_wrapped_difference(head: int, tail: int, n: int)
    requires
        0 <= head < n,
        0 <= tail < n,
    ensures
        (n + tail - head) % n == distance(head, tail, n),
        0 <= distance(head, tail, n) < n,
{
    if head <= tail {
        vstd::arithmetic::div_mod::lemma_mod_add_multiples_vanish(tail - head, n);
        vstd::arithmetic::div_mod::lemma_small_mod((tail - head) as nat, n as nat);
    } else {
        vstd::arithmetic::div_mod::lemma_small_mod((n + tail - head) as nat, n as nat);
    }
}

proof fn lemma_wrapped_successor(index: int, n: int)
    requires
        0 <= index < n,
    ensures
        (index + 1) % n == next_index(index, n),
        0 <= next_index(index, n) < n,
{
    if index + 1 == n {
        vstd::arithmetic::div_mod::lemma_mod_self_0(n);
    } else {
        vstd::arithmetic::div_mod::lemma_small_mod((index + 1) as nat, n as nat);
    }
}

/// What a ring takes of `values` follows what it held, what it hands back follows
/// that, and nothing is lost, doubled or moved on the way. A reader that takes
/// `limit` items gets the oldest ones and leaves the others.
pub proof fn law_first_in_first_out<T>(held: Seq<T>, values: Seq<T>, limit: int, n: int)
    requires
        held.len() < n,
        0 <= limit,
    ensures
        ({
            let room = room_for(held, values, n);
            let kept = held + values.take(room);
            &&& kept.len() < n
            &&& kept + values.skip(room) == held + values
            &&& kept.take(at_most(kept, limit)) + kept.skip(at_most(kept, limit)) == kept
        }),
{
    let room = room_for(held, values, n);
    let kept = held + values.take(room);
    assert(kept + values.skip(room) =~= held + values);
    assert(kept.take(at_most(kept, limit)) + kept.skip(at_most(kept, limit)) =~= kept);
}

/// A producer may decide on an old `head`, one that the consumer has left behind
/// in the meantime. Where the old index lets it write, the slot that it writes is
/// free and stays free of everything that the consumer may still read, and its
/// next index does not run into the consumer's.
pub proof fn law_old_head_is_safe(seen: int, head: int, tail: int, n: int)
    requires
        0 <= seen < n,
        0 <= head < n,
        0 <= tail < n,
        distance(seen, head, n) <= distance(seen, tail, n),
        next_index(tail, n) != seen,
    ensures
        distance(head, tail, n) + 1 < n,
        next_index(tail, n) != head,
        distance(head, next_index(tail, n), n) == distance(head, tail, n) + 1,
        forall|offset: int|
            0 <= offset < distance(head, tail, n) ==> #[trigger] slot_at(head, offset, n) != tail,
{
}

/// A consumer may decide on an old `tail`, one that the producer has left behind
/// in the meantime. Where the old index lets it read, there is something to read,
/// and the slot that it reads is not the one that the producer writes.
pub proof fn law_old_tail_is_safe(head: int, seen: int, tail: int, n: int)
    requires
        0 <= seen < n,
        0 <= head < n,
        0 <= tail < n,
        distance(head, seen, n) <= distance(head, tail, n),
        head != seen,
    ensures
        distance(head, tail, n) > 0,
        head != tail,
        distance(next_index(head, n), tail, n) == distance(head, tail, n) - 1,
{
}

/// No item is missed: as long as a reader waits and is not called, there is nothing to
/// read, and the next item that is written calls it.
pub proof fn law_no_item_is_missed<T, const N: usize>(
    ring: Ring<T, N>,
    after: Ring<T, N>,
    count: int,
)
    requires
        ring.wf(),
        ring.has_waiter(),
        count > 0,
        after.called_since(ring, count),
    ensures
        ring@.len() == 0,
        after.must_wake(),
        !after.has_waiter(),
{
}

/// A ring turns nothing away while it has room: it takes as many items as it is given, or as
/// fill it up to the one slot that stays free, whichever are fewer.
pub proof fn law_nothing_is_turned_away_while_there_is_room<T>(
    held: Seq<T>,
    values: Seq<T>,
    n: int,
)
    requires
        held.len() < n,
    ensures
        0 <= room_for(held, values, n) <= values.len(),
        held.len() + room_for(held, values, n) <= n - 1,
        room_for(held, values, n) == values.len() || held.len() + room_for(held, values, n) == n
            - 1,
{
}

/// A reader gets as many items as it asks for, or all that there are, whichever are fewer.
pub proof fn law_a_reader_gets_what_it_asks_for<T>(held: Seq<T>, limit: int)
    requires
        0 <= limit,
    ensures
        0 <= at_most(held, limit) <= held.len(),
        at_most(held, limit) <= limit,
        at_most(held, limit) == held.len() || at_most(held, limit) == limit,
{
}

/// Indices go round: the slot that lies as far behind `head` as `tail` does is that of
/// `tail`, each step goes one slot further, and all slots are passed before one comes again.
pub proof fn law_indices_go_round(head: int, tail: int, offset: int, n: int)
    requires
        0 <= head < n,
        0 <= tail < n,
        0 <= offset < n,
    ensures
        0 <= distance(head, tail, n) < n,
        distance(head, tail, n) == 0 <==> head == tail,
        slot_at(head, distance(head, tail, n), n) == tail,
        0 <= slot_at(head, offset, n) < n,
        distance(head, slot_at(head, offset, n), n) == offset,
        slot_at(head, 0, n) == head,
        offset + 1 < n ==> slot_at(head, offset + 1, n) == next_index(slot_at(head, offset, n), n),
        slot_at(head, n - 1, n) != head || n == 1,
        next_index(slot_at(head, n - 1, n), n) == head,
{
}

/// Nobody is called who does not wait, nobody who waits is called while nothing is written,
/// and one who is to be woken stays so.
pub proof fn law_nobody_is_called_for_nothing<T, const N: usize>(
    ring: Ring<T, N>,
    after: Ring<T, N>,
    count: int,
)
    requires
        0 <= count,
        after.called_since(ring, count),
    ensures
        !ring.has_waiter() ==> !after.has_waiter() && after.must_wake() == ring.must_wake(),
        count == 0 ==> after.same_calls(ring) && after.has_waiter() == ring.has_waiter()
            && after.must_wake() == ring.must_wake(),
        ring.must_wake() ==> after.must_wake(),
{
}

/// Nobody has come to wait or was called exactly where one who waits still does, and one
/// who is to be woken still is.
pub proof fn law_calls_are_the_same<T, const N: usize>(ring: Ring<T, N>, after: Ring<T, N>)
    ensures
        after.same_calls(ring) <==> after.has_waiter() == ring.has_waiter() && after.must_wake()
            == ring.must_wake(),
{
}

} // verus!
