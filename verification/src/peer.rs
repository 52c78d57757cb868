//! One end of a call: who it is, whom it talks to, and where the sound waits.
use crate::audio::{Capture, PlayStep, Playback, Recorded, Slot};
use crate::frame::Frame;
use crate::handle::ToggleHandle;
use crate::identity::SecretId;
use crate::packet::is_greeting;
use crate::ring::{Consumer, Producer, Ring};
use crate::speex::{Reply, SpeexError};
use crate::voice::{deliver, Delivery, RING_SIZE, SAMPLE_RATE};
use vstd::prelude::*;
use vstd::string::StringExecFns;

verus! {

/// The name of what is spoken on a connection.
pub const ALPN: &'static str = "/harumami/hypha";

/// One who takes part in calls.
pub struct Instance {
    secret: SecretId,
}

impl Instance {
    /// The secret of this one.
    pub closed spec fn secret_id(&self) -> SecretId {
        self.secret
    }

    /// One with the given secret, or with a new one where none is given.
    pub fn bind(secret: Option<SecretId>) -> (r: Self)
        ensures
            secret is Some ==> r.secret_id()@ == secret->0@,
            secret is None ==> r.secret_id()@.len() == 32,
    {
        match secret {
            Some(secret) => Instance { secret },
            None => Instance { secret: SecretId::generate() },
        }
    }

    /// The secret of this one.
    pub fn secret(&self) -> (r: &SecretId)
        ensures
            *r == self.secret_id(),
    {
        &self.secret
    }
}

/// What came of waiting for a connection.
#[derive(Clone, Copy, PartialEq, Eq, Debug, Structural)]
pub enum Incoming {
    /// There will be none any more.
    Closed,
    /// Somebody tried, but it did not work out.
    Refused,
    /// Somebody is there.
    Connecting,
}

/// What to do after waiting for a connection.
#[derive(Clone, Copy, PartialEq, Eq, Debug, Structural)]
pub enum AcceptStep {
    /// Give up.
    Fail,
    /// Wait again.
    Retry,
    /// Go on with the one who is there.
    Connect,
}

/// Waits again after one who could not be accepted, and gives up when nobody can come.
pub fn accept(incoming: Incoming) -> (r: AcceptStep)
    ensures
        r == match incoming {
            Incoming::Closed => AcceptStep::Fail,
            Incoming::Refused => AcceptStep::Retry,
            Incoming::Connecting => AcceptStep::Connect,
        },
{
    match incoming {
        Incoming::Closed => AcceptStep::Fail,
        Incoming::Refused => AcceptStep::Retry,
        Incoming::Connecting => AcceptStep::Connect,
    }
}

/// Why a stream cannot be had.
#[derive(Clone, Copy, PartialEq, Eq, Debug, Structural)]
pub enum PeerError {
    /// The other side did not start the stream as it should.
    Broken,
    /// The reading end of a ring is in use.
    NoConsumer,
    /// The writing end of a ring is in use.
    NoProducer,
}

/// What to say where the other side did not start the stream as it should.
pub fn broken_message() -> (r: String)
    ensures
        r@ == "connection is broken"@,
{
    String::from_str("connection is broken")
}

/// One with whom a connection is open.
pub struct Peer<S> {
    rec_ring: Ring<Frame<S>, RING_SIZE>,
    play_ring: Ring<Frame<S>, RING_SIZE>,
    mute_handle: ToggleHandle,
    deafen_handle: ToggleHandle,
}

impl<S: Copy> Peer<S> {
    /// Both rings are in order.
    pub open spec fn wf(&self) -> bool {
        self.rec_ring().wf() && self.play_ring().wf()
    }

    /// What was recorded and not sent yet.
    pub closed spec fn rec_ring(&self) -> Ring<Frame<S>, RING_SIZE> {
        self.rec_ring
    }

    /// What was received and not played yet.
    pub closed spec fn play_ring(&self) -> Ring<Frame<S>, RING_SIZE> {
        self.play_ring
    }

    /// Whether the microphone is muted.
    pub closed spec fn muted(&self) -> bool {
        self.mute_handle.on()
    }

    /// Whether the speaker is silent.
    pub closed spec fn deafened(&self) -> bool {
        self.deafen_handle.on()
    }

    /// Whether both switches are as in `other`.
    pub open spec fn same_switches(&self, other: Self) -> bool {
        self.muted() == other.muted() && self.deafened() == other.deafened()
    }

    /// A peer of whom nothing was heard and to whom nothing was said.
    pub fn new() -> (r: Self)
        ensures
            r.wf(),
            r.rec_ring()@ == Seq::<Frame<S>>::empty(),
            r.play_ring()@ == Seq::<Frame<S>>::empty(),
            !r.rec_ring().has_producer(),
            !r.rec_ring().has_consumer(),
            !r.rec_ring().has_waiter(),
            !r.rec_ring().must_wake(),
            !r.play_ring().has_producer(),
            !r.play_ring().has_consumer(),
            !r.muted(),
            !r.deafened(),
    {
        Peer {
            rec_ring: Ring::new(),
            play_ring: Ring::new(),
            mute_handle: ToggleHandle::new(),
            deafen_handle: ToggleHandle::new(),
        }
    }

    /// Takes the two ends that a stream needs: the one from which it sends, and the one to
    /// which it receives. Where one of them is in use, none is taken.
    pub fn open_stream(&mut self) -> (r: Result<
        (Consumer<Frame<S>, RING_SIZE>, Producer<Frame<S>, RING_SIZE>),
        PeerError,
    >)
        requires
            old(self).wf(),
        ensures
            final(self).wf(),
            final(self).same_switches(*old(self)),
            final(self).rec_ring().same_calls(old(self).rec_ring()),
            final(self).play_ring().same_calls(old(self).play_ring()),
            final(self).rec_ring()@ == old(self).rec_ring()@,
            final(self).play_ring()@ == old(self).play_ring()@,
            final(self).rec_ring().has_producer() == old(self).rec_ring().has_producer(),
            final(self).rec_ring().head_index() == old(self).rec_ring().head_index(),
            final(self).rec_ring().tail_index() == old(self).rec_ring().tail_index(),
            final(self).play_ring().has_consumer() == old(self).play_ring().has_consumer(),
            final(self).play_ring().head_index() == old(self).play_ring().head_index(),
            final(self).play_ring().tail_index() == old(self).play_ring().tail_index(),
            match r {
                Ok((consumer, producer)) => {
                    &&& !old(self).rec_ring().has_consumer()
                    &&& !old(self).play_ring().has_producer()
                    &&& consumer.reads(final(self).rec_ring())
                    &&& producer.writes(final(self).play_ring())
                },
                Err(error) => {
                    &&& error == if old(self).rec_ring().has_consumer() {
                        PeerError::NoConsumer
                    } else {
                        PeerError::NoProducer
                    }
                    &&& old(self).rec_ring().has_consumer()
                        || old(self).play_ring().has_producer()
                    &&& final(self).rec_ring().has_consumer()
                        == old(self).rec_ring().has_consumer()
                    &&& final(self).play_ring().has_producer()
                        == old(self).play_ring().has_producer()
                },
            },
    {
        let consumer = match self.rec_ring.consumer() {
            Some(consumer) => consumer,
            None => {
                return Err(PeerError::NoConsumer);
            },
        };
        match self.play_ring.producer() {
            Some(producer) => Ok((consumer, producer)),
            None => {
                consumer.release(&mut self.rec_ring);
                Err(PeerError::NoProducer)
            },
        }
    }

    /// Takes the two ends that a stream needs, where the other side has started it as it
    /// should.
    pub fn accept_stream(&mut self, greeting: u8) -> (r: Result<
        (Consumer<Frame<S>, RING_SIZE>, Producer<Frame<S>, RING_SIZE>),
        PeerError,
    >)
        requires
            old(self).wf(),
        ensures
            final(self).wf(),
            final(self).same_switches(*old(self)),
            final(self).rec_ring().same_calls(old(self).rec_ring()),
            final(self).play_ring().same_calls(old(self).play_ring()),
            final(self).rec_ring()@ == old(self).rec_ring()@,
            final(self).play_ring()@ == old(self).play_ring()@,
            final(self).rec_ring().has_producer() == old(self).rec_ring().has_producer(),
            final(self).rec_ring().head_index() == old(self).rec_ring().head_index(),
            final(self).rec_ring().tail_index() == old(self).rec_ring().tail_index(),
            final(self).play_ring().has_consumer() == old(self).play_ring().has_consumer(),
            final(self).play_ring().head_index() == old(self).play_ring().head_index(),
            final(self).play_ring().tail_index() == old(self).play_ring().tail_index(),
            match r {
                Ok((consumer, producer)) => {
                    &&& greeting == crate::packet::GREETING
                    &&& greeting == 0
                    &&& !old(self).rec_ring().has_consumer()
                    &&& !old(self).play_ring().has_producer()
                    &&& consumer.reads(final(self).rec_ring())
                    &&& producer.writes(final(self).play_ring())
                },
                Err(error) => {
                    &&& error == if greeting != crate::packet::GREETING {
                        PeerError::Broken
                    } else if old(self).rec_ring().has_consumer() {
                        PeerError::NoConsumer
                    } else {
                        PeerError::NoProducer
                    }
                    &&& greeting != crate::packet::GREETING
                        || old(self).rec_ring().has_consumer()
                        || old(self).play_ring().has_producer()
                    &&& final(self).rec_ring().has_consumer()
                        == old(self).rec_ring().has_consumer()
                    &&& final(self).play_ring().has_producer()
                        == old(self).play_ring().has_producer()
                },
            },
    {
        if !is_greeting(greeting) {
            return Err(PeerError::Broken);
        }
        self.open_stream()
    }

    /// Takes the end to which a microphone records.
    pub fn record_stream(&mut self) -> (r: Result<Producer<Frame<S>, RING_SIZE>, PeerError>)
        requires
            old(self).wf(),
        ensures
            final(self).wf(),
            final(self).same_switches(*old(self)),
            final(self).rec_ring().same_calls(old(self).rec_ring()),
            final(self).play_ring() == old(self).play_ring(),
            final(self).rec_ring()@ == old(self).rec_ring()@,
            final(self).rec_ring().has_consumer() == old(self).rec_ring().has_consumer(),
            final(self).rec_ring().head_index() == old(self).rec_ring().head_index(),
            final(self).rec_ring().tail_index() == old(self).rec_ring().tail_index(),
            final(self).rec_ring().has_producer(),
            match r {
                Ok(producer) => {
                    &&& !old(self).rec_ring().has_producer()
                    &&& producer.writes(final(self).rec_ring())
                },
                Err(error) => {
                    &&& old(self).rec_ring().has_producer()
                    &&& error == PeerError::NoProducer
                },
            },
    {
        match self.rec_ring.producer() {
            Some(producer) => Ok(producer),
            None => Err(PeerError::NoProducer),
        }
    }

    /// Takes the end from which a speaker plays.
    pub fn play_stream(&mut self) -> (r: Result<Consumer<Frame<S>, RING_SIZE>, PeerError>)
        requires
            old(self).wf(),
        ensures
            final(self).wf(),
            final(self).same_switches(*old(self)),
            final(self).play_ring().same_calls(old(self).play_ring()),
            final(self).rec_ring() == old(self).rec_ring(),
            final(self).play_ring()@ == old(self).play_ring()@,
            final(self).play_ring().has_producer() == old(self).play_ring().has_producer(),
            final(self).play_ring().head_index() == old(self).play_ring().head_index(),
            final(self).play_ring().tail_index() == old(self).play_ring().tail_index(),
            final(self).play_ring().has_consumer(),
            match r {
                Ok(consumer) => {
                    &&& !old(self).play_ring().has_consumer()
                    &&& consumer.reads(final(self).play_ring())
                },
                Err(error) => {
                    &&& old(self).play_ring().has_consumer()
                    &&& error == PeerError::NoConsumer
                },
            },
    {
        match self.play_ring.consumer() {
            Some(consumer) => Ok(consumer),
            None => Err(PeerError::NoConsumer),
        }
    }

    /// Gives back the end from which a stream sends.
    pub fn close_send(&mut self, consumer: Consumer<Frame<S>, RING_SIZE>)
        requires
            old(self).wf(),
            consumer.reads(old(self).rec_ring()),
        ensures
            final(self).wf(),
            final(self).same_switches(*old(self)),
            final(self).rec_ring().same_calls(old(self).rec_ring()),
            final(self).play_ring() == old(self).play_ring(),
            final(self).rec_ring()@ == old(self).rec_ring()@,
            !final(self).rec_ring().has_consumer(),
            final(self).rec_ring().has_producer() == old(self).rec_ring().has_producer(),
            final(self).rec_ring().tail_index() == old(self).rec_ring().tail_index(),
    {
        consumer.release(&mut self.rec_ring);
    }

    /// Gives back the end to which a stream receives.
    pub fn close_receive(&mut self, producer: Producer<Frame<S>, RING_SIZE>)
        requires
            old(self).wf(),
            producer.writes(old(self).play_ring()),
        ensures
            final(self).wf(),
            final(self).same_switches(*old(self)),
            final(self).play_ring().same_calls(old(self).play_ring()),
            final(self).rec_ring() == old(self).rec_ring(),
            final(self).play_ring()@ == old(self).play_ring()@,
            !final(self).play_ring().has_producer(),
            final(self).play_ring().has_consumer() == old(self).play_ring().has_consumer(),
            final(self).play_ring().head_index() == old(self).play_ring().head_index(),
    {
        producer.release(&mut self.play_ring);
    }

    /// Gives back the end to which a microphone recorded.
    pub fn close_record(&mut self, producer: Producer<Frame<S>, RING_SIZE>)
        requires
            old(self).wf(),
            producer.writes(old(self).rec_ring()),
        ensures
            final(self).wf(),
            final(self).same_switches(*old(self)),
            final(self).rec_ring().same_calls(old(self).rec_ring()),
            final(self).play_ring() == old(self).play_ring(),
            final(self).rec_ring()@ == old(self).rec_ring()@,
            !final(self).rec_ring().has_producer(),
            final(self).rec_ring().has_consumer() == old(self).rec_ring().has_consumer(),
            final(self).rec_ring().head_index() == old(self).rec_ring().head_index(),
    {
        producer.release(&mut self.rec_ring);
    }

    /// Gives back the end from which a speaker played.
    pub fn close_play(&mut self, consumer: Consumer<Frame<S>, RING_SIZE>)
        requires
            old(self).wf(),
            consumer.reads(old(self).play_ring()),
        ensures
            final(self).wf(),
            final(self).same_switches(*old(self)),
            final(self).play_ring().same_calls(old(self).play_ring()),
            final(self).rec_ring() == old(self).rec_ring(),
            final(self).play_ring()@ == old(self).play_ring()@,
            !final(self).play_ring().has_consumer(),
            final(self).play_ring().has_producer() == old(self).play_ring().has_producer(),
            final(self).play_ring().tail_index() == old(self).play_ring().tail_index(),
    {
        consumer.release(&mut self.play_ring);
    }

    /// The switch that mutes the microphone.
    pub fn mute_handle(&mut self) -> (r: &mut ToggleHandle)
        ensures
            r.on() == old(self).muted(),
            final(self).muted() == final(r).on(),
            final(self).deafened() == old(self).deafened(),
            final(self).rec_ring() == old(self).rec_ring(),
            final(self).play_ring() == old(self).play_ring(),
    {
        &mut self.mute_handle
    }

    /// The switch that silences the speaker.
    pub fn deafen_handle(&mut self) -> (r: &mut ToggleHandle)
        ensures
            r.on() == old(self).deafened(),
            final(self).deafened() == final(r).on(),
            final(self).muted() == old(self).muted(),
            final(self).rec_ring() == old(self).rec_ring(),
            final(self).play_ring() == old(self).play_ring(),
    {
        &mut self.deafen_handle
    }

    /// Whether a stream that waits for something to send may go on. Where it may not, it
    /// leaves its waker, to be called by the next frame that is recorded.
    pub fn has_recorded(&mut self, consumer: &Consumer<Frame<S>, RING_SIZE>) -> (r: bool)
        requires
            old(self).wf(),
            consumer.reads(old(self).rec_ring()),
        ensures
            final(self).wf(),
            final(self).same_switches(*old(self)),
            final(self).play_ring() == old(self).play_ring(),
            consumer.reads(final(self).rec_ring()),
            r == (old(self).rec_ring()@.len() > 0),
            final(self).rec_ring()@ == old(self).rec_ring()@,
            final(self).rec_ring().has_producer() == old(self).rec_ring().has_producer(),
            final(self).rec_ring().tail_index() == old(self).rec_ring().tail_index(),
            final(self).rec_ring().must_wake() == old(self).rec_ring().must_wake(),
            final(self).rec_ring().has_waiter() == (old(self).rec_ring().has_waiter() || !r),
    {
        consumer.notified(&mut self.rec_ring)
    }

    /// Whether a stream that waits for something to send is to be woken. One who asks does
    /// that, so that it is not to be done again.
    pub fn take_wake(&mut self) -> (r: bool)
        requires
            old(self).wf(),
        ensures
            final(self).wf(),
            final(self).same_switches(*old(self)),
            final(self).play_ring() == old(self).play_ring(),
            r == old(self).rec_ring().must_wake(),
            !final(self).rec_ring().must_wake(),
            final(self).rec_ring().has_waiter() == old(self).rec_ring().has_waiter(),
            final(self).rec_ring()@ == old(self).rec_ring()@,
            final(self).rec_ring().has_producer() == old(self).rec_ring().has_producer(),
            final(self).rec_ring().has_consumer() == old(self).rec_ring().has_consumer(),
            final(self).rec_ring().head_index() == old(self).rec_ring().head_index(),
            final(self).rec_ring().tail_index() == old(self).rec_ring().tail_index(),
    {
        self.rec_ring.take_wake()
    }

    /// Takes all that was recorded, to be sent.
    pub fn collect(&mut self, consumer: &mut Consumer<Frame<S>, RING_SIZE>) -> (r: Vec<Frame<S>>)
        requires
            old(self).wf(),
            old(consumer).reads(old(self).rec_ring()),
        ensures
            final(self).wf(),
            final(self).same_switches(*old(self)),
            final(self).rec_ring().same_calls(old(self).rec_ring()),
            final(self).play_ring() == old(self).play_ring(),
            final(consumer).reads(final(self).rec_ring()),
            final(self).rec_ring().has_producer() == old(self).rec_ring().has_producer(),
            final(self).rec_ring().tail_index() == old(self).rec_ring().tail_index(),
            r@ == old(self).rec_ring()@,
            final(self).rec_ring()@ == Seq::<Frame<S>>::empty(),
    {
        consumer.drain(&mut self.rec_ring)
    }

    /// Puts what was received where the speaker finds it, unless too much waits there.
    pub fn deliver(
        &mut self,
        producer: &mut Producer<Frame<S>, RING_SIZE>,
        frames: Vec<Frame<S>>,
    ) -> (r: Delivery)
        requires
            old(self).wf(),
            old(producer).writes(old(self).play_ring()),
        ensures
            final(self).wf(),
            final(self).same_switches(*old(self)),
            final(self).rec_ring() == old(self).rec_ring(),
            final(producer).writes(final(self).play_ring()),
            final(self).play_ring().has_consumer() == old(self).play_ring().has_consumer(),
            final(self).play_ring().head_index() == old(self).play_ring().head_index(),
            ({
                let held = old(self).play_ring()@;
                let room = crate::ring::room_for(held, frames@, RING_SIZE as int);
                if held.len() > crate::voice::RING_THRESHOLD {
                    &&& r == Delivery::Skipped
                    &&& final(self).play_ring() == old(self).play_ring()
                } else {
                    &&& r == Delivery::Stored { dropped: (frames@.len() - room) as usize }
                    &&& final(self).play_ring()@ == held + frames@.take(room)
                    &&& final(self).play_ring().called_since(old(self).play_ring(), room)
                }
            }),
    {
        deliver(producer, &mut self.play_ring, frames)
    }

    /// Takes in what the resampler made of a microphone's samples.
    pub fn record(
        &mut self,
        capture: &mut Capture<S>,
        reply: Reply<S>,
        producer: &mut Producer<Frame<S>, RING_SIZE>,
    ) -> (r: Result<Recorded, SpeexError>)
        requires
            old(self).wf(),
            old(capture).wf(),
            old(capture).resampler().can_resample(),
            reply.answers(old(capture).resampler().asked()),
            old(producer).writes(old(self).rec_ring()),
        ensures
            final(self).wf(),
            final(self).same_switches(*old(self)),
            final(self).play_ring() == old(self).play_ring(),
            final(capture).wf(),
            final(capture).stereo() == old(capture).stereo(),
            final(capture).resampler().in_rate() == old(capture).resampler().in_rate(),
            final(producer).writes(final(self).rec_ring()),
            final(self).rec_ring().has_consumer() == old(self).rec_ring().has_consumer(),
            final(self).rec_ring().head_index() == old(self).rec_ring().head_index(),
            ({
                let channels = crate::audio::device_channels(old(capture).stereo());
                let held = old(self).rec_ring()@;
                let pending = old(capture).resampler().pending();
                let frames = crate::frame::framed(
                    reply.buffer@.take(channels * reply.out_len),
                    old(capture).stereo(),
                );
                let room = crate::ring::room_for(held, frames, RING_SIZE as int);
                if reply.error != crate::speex::RESAMPLER_ERR_SUCCESS {
                    &&& r matches Err(error) && error.number() == reply.error
                    &&& final(self).rec_ring()@ == held
                    &&& final(self).rec_ring().same_calls(old(self).rec_ring())
                    &&& final(capture).resampler().pending() == pending
                } else if old(self).muted() {
                    &&& r == Ok::<Recorded, SpeexError>(Recorded::Muted)
                    &&& final(self).rec_ring()@ == held
                    &&& final(self).rec_ring().same_calls(old(self).rec_ring())
                    &&& final(capture).resampler().pending() == pending.skip(
                        channels * reply.in_len,
                    )
                } else {
                    &&& r == Ok::<Recorded, SpeexError>(
                        Recorded::Stored { dropped: (frames.len() - room) as usize },
                    )
                    &&& final(self).rec_ring()@ == held + frames.take(room)
                    &&& final(self).rec_ring().called_since(old(self).rec_ring(), room)
                    &&& final(capture).resampler().pending() == pending.skip(
                        channels * reply.in_len,
                    )
                }
            }),
    {
        let muted = self.mute_handle.is_on();
        capture.record(reply, muted, producer, &mut self.rec_ring)
    }

    /// What a device with `len` places plays at once when the speaker is to be silent.
    pub fn play_deafened(&self, len: usize) -> (r: Option<Vec<Slot<S>>>)
        ensures
            r is Some <==> self.deafened(),
            r is Some ==> r->0@ == crate::audio::silent::<S>(len as int),
    {
        Playback::deafened(self.deafen_handle.is_on(), len)
    }

    /// Fills a device's places from what was received; see `Playback::advance`.
    pub fn play<F: Fn(S, S) -> S>(
        &mut self,
        playback: &mut Playback<S>,
        slots: &mut Vec<Slot<S>>,
        len: usize,
        consumer: &mut Consumer<Frame<S>, RING_SIZE>,
        mix: &F,
    ) -> (r: PlayStep)
        requires
            old(self).wf(),
            old(playback).wf(),
            old(slots)@.len() <= len,
            len * SAMPLE_RATE <= usize::MAX - 32,
            old(consumer).reads(old(self).play_ring()),
            forall|a: S, b: S| call_requires(*mix, (a, b)),
        ensures
            final(self).wf(),
            final(self).same_switches(*old(self)),
            final(self).play_ring().same_calls(old(self).play_ring()),
            final(self).rec_ring() == old(self).rec_ring(),
            final(consumer).reads(final(self).play_ring()),
            final(self).play_ring().has_producer() == old(self).play_ring().has_producer(),
            final(self).play_ring().tail_index() == old(self).play_ring().tail_index(),
            crate::audio::advanced(
                *old(playback),
                *final(playback),
                old(slots)@,
                final(slots)@,
                len,
                old(self).play_ring()@,
                final(self).play_ring()@,
                *mix,
                r,
            ),
    {
        playback.advance(slots, len, consumer, &mut self.play_ring, mix)
    }
}

/// How a task that was waited for has ended.
#[derive(Clone, Copy, PartialEq, Eq, Debug, Structural)]
pub enum TaskEnd {
    /// It did its work.
    Finished,
    /// It failed.
    Failed,
    /// It was stopped from outside.
    Aborted,
}

/// How far one is in waiting for the two tasks of a stream.
#[derive(Clone, Copy, PartialEq, Eq, Debug, Structural)]
pub enum JoinStep {
    /// The sending task is waited for.
    Send,
    /// The receiving task is waited for.
    Receive,
    /// Both have ended.
    Joined,
    /// One of them was stopped from outside, and no more is waited for.
    Failed,
}

/// Goes on after the task that was waited for has ended, and tells whether its failure is
/// worth a warning. A task that failed does not keep one from waiting for the other.
pub fn join(step: JoinStep, end: TaskEnd) -> (r: (JoinStep, bool))
    ensures
        r.0 == match step {
            JoinStep::Send => if end == TaskEnd::Aborted {
                JoinStep::Failed
            } else {
                JoinStep::Receive
            },
            JoinStep::Receive => if end == TaskEnd::Aborted {
                JoinStep::Failed
            } else {
                JoinStep::Joined
            },
            _ => step,
        },
        r.1 == ((step == JoinStep::Send || step == JoinStep::Receive) && end == TaskEnd::Failed),
{
    match step {
        JoinStep::Send => match end {
            TaskEnd::Finished => (JoinStep::Receive, false),
            TaskEnd::Failed => (JoinStep::Receive, true),
            TaskEnd::Aborted => (JoinStep::Failed, false),
        },
        JoinStep::Receive => match end {
            TaskEnd::Finished => (JoinStep::Joined, false),
            TaskEnd::Failed => (JoinStep::Joined, true),
            TaskEnd::Aborted => (JoinStep::Failed, false),
        },
        JoinStep::Joined => (JoinStep::Joined, false),
        JoinStep::Failed => (JoinStep::Failed, false),
    }
}

/// How far the sending task of a stream is.
#[derive(Clone, Copy, PartialEq, Eq, Debug, Structural)]
pub enum SendPhase {
    /// It makes its encoder.
    Starting,
    /// It sends packets.
    Running,
    /// It tells the other side that there will be no more.
    Finishing,
    /// It waits until the other side has heard of that.
    Stopping,
    /// It has ended.
    Ended(TaskEnd),
}

/// What has come of a phase of a task.
#[derive(Clone, Copy, PartialEq, Eq, Debug, Structural)]
pub enum PhaseEnd {
    /// It has done its work.
    Done,
    /// It failed.
    Failed,
    /// The call was closed.
    Closed,
}

/// Goes on with the sending task of a stream. Whatever ends the sending of packets, the
/// other side is told; the task fails only where that, or the start, does.
pub fn next_send_phase(phase: SendPhase, end: PhaseEnd) -> (r: SendPhase)
    ensures
        r == match phase {
            SendPhase::Starting => if end == PhaseEnd::Failed {
                SendPhase::Ended(TaskEnd::Failed)
            } else {
                SendPhase::Running
            },
            SendPhase::Running => SendPhase::Finishing,
            SendPhase::Finishing => if end == PhaseEnd::Failed {
                SendPhase::Ended(TaskEnd::Failed)
            } else {
                SendPhase::Stopping
            },
            SendPhase::Stopping => if end == PhaseEnd::Failed {
                SendPhase::Ended(TaskEnd::Failed)
            } else {
                SendPhase::Ended(TaskEnd::Finished)
            },
            SendPhase::Ended(_) => phase,
        },
{
    let failed: bool = match end {
        PhaseEnd::Failed => true,
        _ => false,
    };
    match phase {
        SendPhase::Running => SendPhase::Finishing,
        SendPhase::Ended(_) => phase,
        _ => if failed {
            SendPhase::Ended(TaskEnd::Failed)
        } else {
            match phase {
                SendPhase::Starting => SendPhase::Running,
                SendPhase::Finishing => SendPhase::Stopping,
                _ => SendPhase::Ended(TaskEnd::Finished),
            }
        },
    }
}

/// How far the receiving task of a stream is.
#[derive(Clone, Copy, PartialEq, Eq, Debug, Structural)]
pub enum RecvPhase {
    /// It makes its decoder.
    Starting,
    /// It receives packets.
    Running,
    /// It has ended.
    Ended(TaskEnd),
}

/// Goes on with the receiving task of a stream. Whatever ends the receiving of packets,
/// the task has done its work; it fails only where the start does.
pub fn next_recv_phase(phase: RecvPhase, end: PhaseEnd) -> (r: RecvPhase)
    ensures
        r == match phase {
            RecvPhase::Starting => if end == PhaseEnd::Failed {
                RecvPhase::Ended(TaskEnd::Failed)
            } else {
                RecvPhase::Running
            },
            RecvPhase::Running => RecvPhase::Ended(TaskEnd::Finished),
            RecvPhase::Ended(_) => phase,
        },
{
    match phase {
        RecvPhase::Starting => match end {
            PhaseEnd::Failed => RecvPhase::Ended(TaskEnd::Failed),
            _ => RecvPhase::Running,
        },
        RecvPhase::Running => RecvPhase::Ended(TaskEnd::Finished),
        RecvPhase::Ended(_) => phase,
    }
}

/// Two states have the same switches exactly where both switches are the same.
pub proof fn law_both_switches_count<S: Copy>(one: Peer<S>, other: Peer<S>)
    ensures
        one.same_switches(other) <==> one.muted() == other.muted() && one.deafened()
            == other.deafened(),
{
}

} // verus!
