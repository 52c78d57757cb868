//! The telephone: a call whose sound waits in queues that drop the oldest frames.
//!
//! A sample is the 32 bits of a floating-point number here.
use crate::audio::{Capture, PlayStep, Playback, Slot};
use crate::frame::Frame;
use crate::identity::{KeyError, PublicId, SecretId};
use crate::packet::is_greeting;
use crate::peer::PeerError;
use crate::queue::RingBuffer;
use crate::speex::{Reply, SpeexError};
use crate::voice::SAMPLE_RATE;
use vstd::prelude::*;
use vstd::string::StringExecFns;

verus! {

/// The name of what is spoken on a connection.
pub const ALPN: &'static str = "/eeic-i3/31";

/// How many frames a queue has room for: 100 milliseconds.
pub const RING_SIZE: usize = 48000 * 100 / 1000;

/// A hexadecimal digit as text.
fn digit_text(value: u8) -> (r: &'static str)
    requires
        value < 16,
    ensures
        r@ == seq![crate::identity::hex_digit(value as int)],
{
    proof {
        reveal_strlit("0");
        reveal_strlit("1");
        reveal_strlit("2");
        reveal_strlit("3");
        reveal_strlit("4");
        reveal_strlit("5");
        reveal_strlit("6");
        reveal_strlit("7");
        reveal_strlit("8");
        reveal_strlit("9");
        reveal_strlit("a");
        reveal_strlit("b");
        reveal_strlit("c");
        reveal_strlit("d");
        reveal_strlit("e");
        reveal_strlit("f");
    }
    let r: &'static str = match value {
        0 => "0",
        1 => "1",
        2 => "2",
        3 => "3",
        4 => "4",
        5 => "5",
        6 => "6",
        7 => "7",
        8 => "8",
        9 => "9",
        10 => "a",
        11 => "b",
        12 => "c",
        13 => "d",
        14 => "e",
        _ => "f",
    };
    assert(r@ =~= seq![crate::identity::hex_digit(value as int)]);
    r
}

/// Bytes in hexadecimal digits.
fn hex_text(bytes: &[u8]) -> (r: String)
    ensures
        r@ == crate::identity::hex_lower(bytes@),
{
    let mut r = String::new();
    let mut i: usize = 0;
    while i < bytes.len()
        invariant
            i <= bytes@.len(),
            r@ == crate::identity::hex_lower(bytes@.take(i as int)),
        decreases bytes@.len() - i,
    {
        let byte: u8 = bytes[i];
        r.append(digit_text(byte / 16));
        r.append(digit_text(byte % 16));
        i += 1;
        assert(r@ =~= crate::identity::hex_lower(bytes@.take(i as int)));
    }
    assert(bytes@.take(i as int) =~= bytes@);
    r
}

/// The secret of a telephone.
pub struct Secret {
    id: SecretId,
}

impl Clone for Secret {
    fn clone(&self) -> (r: Self)
        ensures
            r@ == self@,
    {
        Secret { id: self.id.clone() }
    }
}

impl View for Secret {
    type V = Seq<u8>;

    /// The bytes of the key.
    closed spec fn view(&self) -> Seq<u8> {
        self.id@
    }
}

impl Secret {
    /// A new secret, drawn by chance.
    pub fn generate() -> (r: Self)
        ensures
            r@.len() == 32,
    {
        Secret { id: SecretId::generate() }
    }

    /// The public name that follows from this secret.
    pub fn node_id(&self) -> (r: PublicId)
        ensures
            r@ == crate::identity::public_key_of(self@),
    {
        self.id.public()
    }

    /// The key.
    pub fn key(&self) -> (r: &[u8; 32])
        ensures
            r@ == self@,
    {
        self.id.key()
    }

    /// The key in hexadecimal digits. Read again, they give the same secret.
    pub fn to_text(&self) -> (r: String)
        ensures
            r@ == crate::identity::hex_lower(self@),
    {
        hex_text(self.id.key().as_slice())
    }

    /// Reads a secret.
    pub fn from_str(s: &str) -> (r: Result<Self, KeyError>)
        requires
            s.len() <= usize::MAX / 8,
        ensures
            r is Ok <==> crate::identity::parsed_secret_key(s@) is Some,
            r is Ok ==> crate::identity::parsed_secret_key(s@) == Some(r->Ok_0@),
            r is Err ==> r->Err_0 == crate::identity::decoding_error(s.len()),
            forall|bytes: Seq<u8>|
                bytes.len() == 32 && s@ == #[trigger] crate::identity::hex_lower(bytes) ==> r is Ok
                    && r->Ok_0@ == bytes,
    {
        match SecretId::from_str(s) {
            Ok(id) => Ok(Secret { id }),
            Err(error) => Err(error),
        }
    }
}

/// One who takes part in calls.
pub struct Instance {
    secret: Secret,
}

impl Instance {
    /// The bytes of the secret key of this one.
    pub closed spec fn secret_key(&self) -> Seq<u8> {
        self.secret@
    }

    /// One with the given secret, or with a new one where none is given.
    pub fn bind(secret: Option<Secret>) -> (r: Self)
        ensures
            secret is Some ==> r.secret_key() == secret->0@,
            secret is None ==> r.secret_key().len() == 32,
    {
        match secret {
            Some(secret) => Instance { secret },
            None => Instance { secret: Secret::generate() },
        }
    }

    /// The secret of this one.
    pub fn secret(&self) -> (r: &Secret)
        ensures
            r@ == self.secret_key(),
    {
        &self.secret
    }
}

/// Whether the other side has started a stream as it should.
pub fn check_greeting(greeting: u8) -> (r: Result<(), PeerError>)
    ensures
        r == if greeting == crate::packet::GREETING {
            Ok::<(), PeerError>(())
        } else {
            Err(PeerError::Broken)
        },
        r is Ok <==> greeting == 0,
{
    if is_greeting(greeting) {
        Ok(())
    } else {
        Err(PeerError::Broken)
    }
}

/// A call.
pub struct Connection {
    rec_ring: RingBuffer,
    play_ring: RingBuffer,
}

impl Connection {
    /// Both queues are in order and have the room that they should.
    pub closed spec fn wf(&self) -> bool {
        &&& self.rec_ring.wf()
        &&& self.play_ring.wf()
        &&& self.rec_ring.limit() == RING_SIZE
        &&& self.play_ring.limit() == RING_SIZE
    }

    /// What was recorded and not sent yet.
    pub closed spec fn recorded(&self) -> Seq<Frame<u32>> {
        self.rec_ring@
    }

    /// What was received and not played yet.
    pub closed spec fn received(&self) -> Seq<Frame<u32>> {
        self.play_ring@
    }

    /// A call in which nothing was said.
    pub fn new() -> (r: Self)
        ensures
            r.wf(),
            r.recorded() == Seq::<Frame<u32>>::empty(),
            r.received() == Seq::<Frame<u32>>::empty(),
    {
        Connection { rec_ring: RingBuffer::new(RING_SIZE), play_ring: RingBuffer::new(RING_SIZE) }
    }

    /// Takes all that was recorded, to be sent.
    pub fn collect(&mut self) -> (r: Vec<Frame<u32>>)
        requires
            old(self).wf(),
        ensures
            final(self).wf(),
            r@ == old(self).recorded(),
            final(self).recorded() == Seq::<Frame<u32>>::empty(),
            final(self).received() == old(self).received(),
    {
        self.rec_ring.drain()
    }

    /// Puts what was received where the speaker finds it.
    pub fn deliver(&mut self, frames: &Vec<Frame<u32>>)
        requires
            old(self).wf(),
        ensures
            final(self).wf(),
            final(self).recorded() == old(self).recorded(),
            final(self).received() == crate::queue::retained(
                old(self).received() + frames@,
                RING_SIZE as int,
            ),
    {
        self.play_ring.extend(frames);
    }

    /// Takes in what the resampler made of a microphone's samples.
    pub fn record(&mut self, capture: &mut Capture<u32>, reply: Reply<u32>) -> (r: Result<
        (),
        SpeexError,
    >)
        requires
            old(self).wf(),
            old(capture).wf(),
            old(capture).resampler().can_resample(),
            reply.answers(old(capture).resampler().asked()),
        ensures
            final(self).wf(),
            final(self).received() == old(self).received(),
            final(capture).wf(),
            final(capture).stereo() == old(capture).stereo(),
            final(capture).resampler().in_rate() == old(capture).resampler().in_rate(),
            ({
                let channels = crate::audio::device_channels(old(capture).stereo());
                let pending = old(capture).resampler().pending();
                let frames = crate::frame::framed(
                    reply.buffer@.take(channels * reply.out_len),
                    old(capture).stereo(),
                );
                if reply.error != crate::speex::RESAMPLER_ERR_SUCCESS {
                    &&& r matches Err(error) && error.number() == reply.error
                    &&& final(self).recorded() == old(self).recorded()
                    &&& final(capture).resampler().pending() == pending
                } else {
                    &&& r is Ok
                    &&& final(self).recorded() == crate::queue::retained(
                        old(self).recorded() + frames,
                        RING_SIZE as int,
                    )
                    &&& final(capture).resampler().pending() == pending.skip(
                        channels * reply.in_len,
                    )
                }
            }),
    {
        match capture.resampled(reply) {
            Ok(frames) => {
                self.rec_ring.extend(&frames);
                Ok(())
            },
            Err(error) => Err(error),
        }
    }

    /// Fills a device's places from what was received: with what the resampler made, then,
    /// as long as there are frames, with what it is to make of those, and then with
    /// silence.
    pub fn play<F: Fn(u32, u32) -> u32>(
        &mut self,
        playback: &mut Playback<u32>,
        slots: &mut Vec<Slot<u32>>,
        len: usize,
        mix: &F,
    ) -> (r: PlayStep)
        requires
            old(self).wf(),
            old(playback).wf(),
            old(slots)@.len() <= len,
            len * SAMPLE_RATE <= usize::MAX - 32,
            forall|a: u32, b: u32| call_requires(*mix, (a, b)),
        ensures
            final(self).wf(),
            final(self).recorded() == old(self).recorded(),
            crate::audio::advanced(
                *old(playback),
                *final(playback),
                old(slots)@,
                final(slots)@,
                len,
                old(self).received(),
                final(self).received(),
                *mix,
                r,
            ),
    {
        if playback.emit(slots, len) {
            return PlayStep::Done;
        }
        if self.play_ring.len() == 0 {
            Playback::silence(slots, len);
            return PlayStep::Done;
        }
        let ghost emitted = *playback;
        let wanted: usize = playback.wanted(len - slots.len());
        let frames: Vec<Frame<u32>> = self.play_ring.take(wanted);
        playback.feed(&frames, mix);
        proof {
            let before = *old(playback);
            let count = before.playable(len - old(slots)@.len());
            assert(slots@.len() == old(slots)@.len() + count);
            assert(playback.unplayed() == emitted.unplayed());
            assert(wanted == before.wanted_frames(len - old(slots)@.len() - count));
            assert(frames@ == old(self).received().take(
                crate::ring::at_most(old(self).received(), wanted as int),
            ));
        }
        PlayStep::Resample
    }

    /// How full the queue of the microphone is: how many frames it holds, and for how many
    /// it has room.
    pub fn rec_level(&self) -> (r: (usize, usize))
        requires
            self.wf(),
        ensures
            r.0 == self.recorded().len(),
            r.1 == RING_SIZE,
    {
        (self.rec_ring.len(), self.rec_ring.capacity())
    }

    /// How full the queue of the speaker is: how many frames it holds, and for how many it
    /// has room.
    pub fn play_level(&self) -> (r: (usize, usize))
        requires
            self.wf(),
        ensures
            r.0 == self.received().len(),
            r.1 == RING_SIZE,
    {
        (self.play_ring.len(), self.play_ring.capacity())
    }
}

} // verus!
