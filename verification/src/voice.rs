//! Frames into packets and packets into frames.
use crate::frame::{interleave, pair, Frame};
use crate::opus::{Decoded, Decoder, Encoded, Encoder, OpusError};
use crate::packet::{packet_len, write_packet};
use crate::ring::{Producer, Ring};
use vstd::prelude::*;

verus! {

/// How many points in time a second has on the stream.
pub const SAMPLE_RATE: u32 = 48000;

/// How many samples make one point in time on the stream.
pub const CHANNELS: u32 = 2;

/// How many points in time a packet holds: 20 milliseconds.
pub const FRAME_SIZE: usize = 48000 * 20 / 1000;

/// How many samples there is room for when a packet is decoded: as many as 120
/// milliseconds have points in time.
pub const MAX_FRAME_SIZE: usize = 48000 * 120 / 1000;

/// How many bytes there is room for when a packet is encoded.
pub const MAX_PACKET_SIZE: usize = 4000;

/// How well the resampler works, from 0 to 10.
pub const RESAMPLE_QUALITY: u32 = 7;

/// How many slots a ring has: 200 milliseconds.
pub const RING_SIZE: usize = 48000 * 200 / 1000;

/// Above how many frames the ring for the speaker takes no more from the stream.
pub const RING_THRESHOLD: usize = RING_SIZE / 2;

/// How many samples a packet takes.
pub open spec fn packet_samples() -> int {
    CHANNELS * FRAME_SIZE
}

/// What can happen to the sending side.
pub enum SendEvent<S> {
    /// The ring of the microphone had something, and these frames were in it.
    Woken(Vec<Frame<S>>),
    /// The encoder has answered.
    Encoded(Encoded),
    /// What was to be written to the stream has been written.
    Written,
}

/// What the sending side does next.
#[derive(Debug)]
pub enum SendAction {
    /// Wait until the ring of the microphone has something.
    Wait,
    /// Have the encoder make a packet.
    Encode,
    /// Write to the stream.
    Write(Vec<u8>),
    /// Stop, because the encoder failed.
    Stop(OpusError),
}

/// Whether `action` is what is to be done when nothing but `pending` samples is at hand:
/// a packet, if there are enough of them.
pub open spec fn is_due<S>(action: SendAction, pending: Seq<S>) -> bool {
    if pending.len() >= packet_samples() {
        action is Encode
    } else {
        action is Wait
    }
}

/// The packet that the encoder wrote.
pub open spec fn written_packet(reply: Encoded) -> Seq<u8> {
    if reply.size <= reply.buffer@.len() {
        reply.buffer@.take(reply.size as int)
    } else {
        reply.buffer@
    }
}

/// The sending side of a stream: collects frames and makes packets of them.
pub struct Sender<S> {
    encoder: Encoder<S>,
}

impl<S: Copy> Sender<S> {
    /// The samples of a packet are those of the stream.
    pub closed spec fn wf(&self) -> bool {
        self.encoder.channels() == CHANNELS
    }

    /// The samples that are in no packet yet.
    pub closed spec fn pending(&self) -> Seq<S> {
        self.encoder.pending()
    }

    /// Starts with nothing, unless the codec refused to make an encoder.
    pub fn new(error: i32) -> (r: Result<Self, OpusError>)
        ensures
            r is Ok <==> error >= 0,
            r is Ok ==> r->Ok_0.wf() && r->Ok_0.pending() == Seq::<S>::empty(),
            r is Err ==> r->Err_0.number() == error,
    {
        match Encoder::new(CHANNELS, error) {
            Ok(encoder) => Ok(Sender { encoder }),
            Err(error) => Err(error),
        }
    }

    /// Takes in what came out of the ring of the microphone.
    fn absorb(&mut self, frames: &Vec<Frame<S>>)
        requires
            old(self).wf(),
        ensures
            final(self).wf(),
            final(self).pending() == old(self).pending() + crate::frame::interleaved(frames@),
    {
        let mut samples: Vec<S> = interleave(frames);
        self.encoder.input().append(&mut samples);
    }

    /// Takes in samples that are in turn already, and goes on.
    pub fn absorb_samples(&mut self, samples: &[S]) -> (r: SendAction)
        requires
            old(self).wf(),
        ensures
            final(self).wf(),
            final(self).pending() == old(self).pending() + samples@,
            is_due(r, final(self).pending()),
            final(self).pending().len() >= 1920 ==> r is Encode,
            final(self).pending().len() < 1920 ==> r is Wait,
    {
        let mut copy: Vec<S> = vstd::slice::slice_to_vec(samples);
        self.encoder.input().append(&mut copy);
        self.due()
    }

    /// What is to be done when nothing but the samples is at hand.
    fn due(&self) -> (r: SendAction)
        requires
            self.wf(),
        ensures
            is_due(r, self.pending()),
    {
        if self.encoder.ready(FRAME_SIZE) {
            SendAction::Encode
        } else {
            SendAction::Wait
        }
    }

    /// The encoder.
    pub fn encoder(&self) -> (r: &Encoder<S>)
        ensures
            r.pending() == self.pending(),
            self.wf() ==> r.channels() == CHANNELS,
    {
        &self.encoder
    }

    /// The samples that the encoder is to make the next packet of.
    pub fn frame(&self) -> (r: &[S])
        requires
            self.wf(),
            self.pending().len() >= packet_samples(),
        ensures
            r@ == self.pending().take(packet_samples()),
            r@ == self.pending().take(1920),
    {
        self.encoder.frame(FRAME_SIZE)
    }

    /// Goes on after `event`. Packets are made as long as there are samples enough. The
    /// encoder may make an empty packet, of which nothing is written.
    pub fn step(&mut self, event: SendEvent<S>) -> (r: SendAction)
        requires
            old(self).wf(),
            event matches SendEvent::Encoded(reply) ==> {
                &&& old(self).pending().len() >= packet_samples()
                &&& reply.buffer@.len() == MAX_PACKET_SIZE
            },
        ensures
            final(self).wf(),
            match event {
                SendEvent::Woken(frames) => {
                    &&& final(self).pending() == old(self).pending()
                        + crate::frame::interleaved(frames@)
                    &&& is_due(r, final(self).pending())
                },
                SendEvent::Encoded(reply) => if reply.size < 0 {
                    &&& final(self).pending() == old(self).pending()
                    &&& r matches SendAction::Stop(error) && error.number() == reply.size
                } else {
                    &&& final(self).pending() == old(self).pending().skip(packet_samples())
                    &&& if written_packet(reply).len() > 0 {
                        r matches SendAction::Write(bytes) && bytes@ == crate::packet::on_wire(
                            written_packet(reply),
                        )
                    } else {
                        is_due(r, final(self).pending())
                    }
                    &&& reply.size == 0 ==> r !is Write
                    &&& 0 < reply.size <= reply.buffer@.len() ==> {
                        &&& r matches SendAction::Write(bytes)
                        &&& bytes@.len() == 4 + reply.size
                        &&& bytes[0] + 256 * bytes[1] + 65536 * bytes[2] + 16777216 * bytes[3]
                            == reply.size
                        &&& bytes@.skip(4) == reply.buffer@.take(reply.size as int)
                    }
                    &&& final(self).pending() == old(self).pending().skip(1920)
                },
                SendEvent::Written => {
                    &&& final(self).pending() == old(self).pending()
                    &&& is_due(r, final(self).pending())
                },
            },
    {
        match event {
            SendEvent::Woken(frames) => {
                self.absorb(&frames);
                self.due()
            },
            SendEvent::Encoded(reply) => match self.encoder.encode(
                FRAME_SIZE,
                MAX_PACKET_SIZE,
                reply,
            ) {
                Ok(()) => {
                    let packet: &[u8] = self.encoder.output();
                    if packet.len() > 0 {
                        SendAction::Write(write_packet(packet))
                    } else {
                        self.due()
                    }
                },
                Err(error) => SendAction::Stop(error),
            },
            SendEvent::Written => self.due(),
        }
    }
}

/// What can happen to the receiving side.
pub enum RecvEvent<S> {
    /// The four bytes in front of a packet have come.
    Header([u8; 4]),
    /// The packet has come.
    Body(Vec<u8>),
    /// The decoder has answered.
    Decoded(Decoded<S>),
    /// The frames have been passed on.
    Delivered,
}

/// What the receiving side does next.
pub enum RecvAction<S> {
    /// Read the four bytes in front of a packet.
    ReadHeader,
    /// Read a packet of so many bytes.
    ReadBody(usize),
    /// Have the decoder work on the packet.
    Decode,
    /// Pass these frames on to the speaker.
    Deliver(Vec<Frame<S>>),
    /// Stop, because the decoder failed.
    Stop(OpusError),
}

/// The samples that the decoder wrote.
pub open spec fn written_samples<S>(reply: Decoded<S>) -> Seq<S> {
    if CHANNELS * reply.frames <= reply.buffer@.len() {
        reply.buffer@.take(CHANNELS * reply.frames)
    } else {
        reply.buffer@
    }
}

/// The receiving side of a stream: takes packets and makes frames of them.
pub struct Receiver<S> {
    decoder: Decoder<S>,
}

impl<S: Copy> Receiver<S> {
    /// The samples of a packet are those of the stream.
    pub closed spec fn wf(&self) -> bool {
        self.decoder.channels() == CHANNELS
    }

    /// The packet that waits to be decoded.
    pub closed spec fn packet(&self) -> Seq<u8> {
        self.decoder.packet()
    }

    /// Starts with nothing, unless the codec refused to make a decoder.
    pub fn new(error: i32) -> (r: Result<Self, OpusError>)
        ensures
            r is Ok <==> error >= 0,
            r is Ok ==> r->Ok_0.wf() && r->Ok_0.packet() == Seq::<u8>::empty(),
            r is Err ==> r->Err_0.number() == error,
    {
        match Decoder::new(CHANNELS, error) {
            Ok(decoder) => Ok(Receiver { decoder }),
            Err(error) => Err(error),
        }
    }

    /// The packet that waits to be decoded.
    pub fn waiting(&self) -> (r: &[u8])
        ensures
            r@ == self.packet(),
    {
        self.decoder.waiting()
    }

    /// Goes on after `event`: a packet is read in two parts, decoded and passed on, and
    /// then the next one is read.
    pub fn step(&mut self, event: RecvEvent<S>) -> (r: RecvAction<S>)
        requires
            old(self).wf(),
            event matches RecvEvent::Decoded(reply) ==> {
                &&& reply.buffer@.len() == MAX_FRAME_SIZE
                &&& CHANNELS * reply.frames <= usize::MAX
            },
        ensures
            final(self).wf(),
            final(self).packet() == match event {
                RecvEvent::Body(bytes) => bytes@,
                _ => old(self).packet(),
            },
            match event {
                RecvEvent::Header(header) => r matches RecvAction::ReadBody(len) && len
                    == crate::packet::le_value(header@),
                RecvEvent::Body(_) => r is Decode,
                RecvEvent::Decoded(reply) => if reply.frames < 0 {
                    r matches RecvAction::Stop(error) && error.number() == reply.frames
                } else {
                    &&& r matches RecvAction::Deliver(frames) && crate::frame::interleaved(frames@)
                        == written_samples(reply)
                    &&& 2 * reply.frames <= reply.buffer@.len() ==> {
                        &&& r matches RecvAction::Deliver(frames)
                        &&& frames@.len() == reply.frames
                        &&& forall|i: int|
                            0 <= i < frames@.len() ==> (#[trigger] frames@[i]).left
                                == reply.buffer@[2 * i] && frames@[i].right == reply.buffer@[2 * i
                                + 1]
                    }
                    &&& 2 * reply.frames > reply.buffer@.len() ==> {
                        &&& r matches RecvAction::Deliver(frames)
                        &&& crate::frame::interleaved(frames@) == reply.buffer@
                    }
                },
                RecvEvent::Delivered => r is ReadHeader,
            },
    {
        match event {
            RecvEvent::Header(header) => RecvAction::ReadBody(packet_len(&header) as usize),
            RecvEvent::Body(bytes) => {
                *self.decoder.input() = bytes;
                RecvAction::Decode
            },
            RecvEvent::Decoded(reply) => match self.decoder.decode(MAX_FRAME_SIZE, reply) {
                Ok(()) => {
                    let samples: &[S] = self.decoder.output();
                    proof {
                        crate::frame::law_interleaving_undoes_pairing(samples@);
                    }
                    RecvAction::Deliver(pair(samples))
                },
                Err(error) => RecvAction::Stop(error),
            },
            RecvEvent::Delivered => RecvAction::ReadHeader,
        }
    }
}

/// What became of the frames of a packet.
#[derive(Clone, Copy, PartialEq, Eq, Debug, Structural)]
pub enum Delivery {
    /// The ring of the speaker was too full, and none were put there.
    Skipped,
    /// They were put into the ring, except the last `dropped`, for which it had no
    /// room.
    Stored { dropped: usize },
}

/// Puts the frames of a packet into the ring of the speaker, unless more wait there
/// than should.
pub fn deliver<S: Copy>(
    producer: &mut Producer<Frame<S>, RING_SIZE>,
    ring: &mut Ring<Frame<S>, RING_SIZE>,
    frames: Vec<Frame<S>>,
) -> (r: Delivery)
    requires
        old(ring).wf(),
        old(producer).writes(*old(ring)),
    ensures
        final(ring).wf(),
        final(producer).writes(*final(ring)),
        final(ring).has_consumer() == old(ring).has_consumer(),
        final(ring).head_index() == old(ring).head_index(),
        old(ring)@.len() > RING_THRESHOLD ==> {
            &&& r == Delivery::Skipped
            &&& *final(ring) == *old(ring)
        },
        old(ring)@.len() <= RING_THRESHOLD ==> {
            let room = crate::ring::room_for(old(ring)@, frames@, RING_SIZE as int);
            &&& final(ring)@ == old(ring)@ + frames@.take(room)
            &&& final(ring).called_since(*old(ring), room)
            &&& r == Delivery::Stored { dropped: (frames@.len() - room) as usize }
        },
        old(ring)@.len() <= RING_THRESHOLD && old(ring)@.len() + frames@.len() < RING_SIZE ==> {
            &&& r == (Delivery::Stored { dropped: 0 })
            &&& final(ring)@ == old(ring)@ + frames@
        },
        old(ring)@.len() <= RING_THRESHOLD && old(ring)@.len() + frames@.len() >= RING_SIZE ==> {
            &&& r matches Delivery::Stored { dropped } && {
                &&& 0 < dropped <= frames@.len()
                &&& final(ring)@.len() == RING_SIZE - 1
                &&& final(ring)@ + frames@.skip(frames@.len() - dropped) == old(ring)@ + frames@
            }
        },
{
    if producer.len(ring) > RING_THRESHOLD {
        return Delivery::Skipped;
    }
    proof {
        ring.lemma_bounded();
    }
    match producer.extend(ring, frames) {
        Ok(()) => Delivery::Stored { dropped: 0 },
        Err(rest) => Delivery::Stored { dropped: rest.len() },
    }
}

/// Packets are made of the samples in the order in which they came in: the first
/// `count` packets take the first samples, the next one takes those that follow, and
/// none is left out or taken twice.
pub proof fn law_packets_follow_samples<S>(samples: Seq<S>, count: int)
    requires
        0 <= count,
        (count + 1) * packet_samples() <= samples.len(),
    ensures
        ({
            let taken = count * packet_samples();
            let next = samples.skip(taken).take(packet_samples());
            &&& samples.take(taken) + next == samples.take((count + 1) * packet_samples())
            &&& samples.skip(taken).skip(packet_samples()) == samples.skip(
                (count + 1) * packet_samples(),
            )
        }),
{
    assert(packet_samples() == 1920);
    let taken = count * packet_samples();
    let next = samples.skip(taken).take(packet_samples());
    assert(samples.take(taken) + next =~= samples.take((count + 1) * packet_samples()));
    assert(samples.skip(taken).skip(packet_samples()) =~= samples.skip(
        (count + 1) * packet_samples(),
    ));
}

/// A packet is received as it was sent: the bytes that the sending side writes start with
/// as many as the receiving side reads first, these give the number of those that follow,
/// and those are the packet.
pub proof fn law_what_is_sent_is_received(reply: Encoded)
    requires
        0 <= reply.size,
        reply.buffer@.len() == MAX_PACKET_SIZE,
    ensures
        ({
            let packet = written_packet(reply);
            let bytes = crate::packet::on_wire(packet);
            let front = crate::packet::HEADER_LEN as int;
            &&& bytes.len() == front + packet.len()
            &&& crate::packet::le_value(bytes.take(front)) == packet.len()
            &&& bytes.skip(front) == packet
        }),
{
    let packet = written_packet(reply);
    let bytes = crate::packet::on_wire(packet);
    crate::packet::law_read_gives_back_written(packet, Seq::empty());
    assert(bytes + Seq::<u8>::empty() =~= bytes);
    let rest = bytes.skip(crate::packet::HEADER_LEN as int);
    assert(rest =~= packet);
    let len = crate::packet::le_value(bytes.take(crate::packet::HEADER_LEN as int));
    assert(rest.take(len) == packet);
}

/// What is written is what the encoder wrote, whole: of a reply that fits its buffer, as many
/// bytes as the encoder says, behind their number.
pub proof fn law_a_packet_is_sent_whole(reply: Encoded)
    requires
        0 <= reply.size <= reply.buffer@.len(),
    ensures
        ({
            let bytes = crate::packet::on_wire(written_packet(reply));
            &&& bytes.len() == 4 + reply.size
            &&& crate::packet::le_value(bytes.take(4)) == reply.size
            &&& bytes.skip(4) == reply.buffer@.take(reply.size as int)
        }),
{
    crate::packet::law_a_packet_stands_behind_its_length(written_packet(reply));
}

/// A number of bytes beyond the buffer stands for all of it.
pub proof fn law_a_packet_ends_with_its_buffer(reply: Encoded)
    requires
        reply.size > reply.buffer@.len(),
    ensures
        written_packet(reply) == reply.buffer@,
{
}

/// What is passed on is what the decoder wrote, whole: of a reply that fits its buffer, both
/// samples of as many points in time as the decoder says, each at its place.
pub proof fn law_a_packet_is_heard_whole<S>(reply: Decoded<S>, i: int)
    requires
        0 <= reply.frames,
        2 * reply.frames <= reply.buffer@.len(),
    ensures
        written_samples(reply).len() == 2 * reply.frames,
        0 <= i < 2 * reply.frames ==> written_samples(reply)[i] == reply.buffer@[i],
        crate::frame::paired(written_samples(reply)).len() == reply.frames,
        0 <= i < reply.frames ==> crate::frame::paired(written_samples(reply))[i]
            == (crate::frame::Frame { left: reply.buffer@[2 * i], right: reply.buffer@[2 * i + 1] }),
{
}

/// A number of points in time beyond the buffer stands for all of it.
pub proof fn law_samples_end_with_their_buffer<S>(reply: Decoded<S>)
    requires
        2 * reply.frames > reply.buffer@.len(),
    ensures
        written_samples(reply) == reply.buffer@,
{
}

/// A packet takes both samples of each point in time of 20 milliseconds.
pub proof fn law_a_packet_lasts_20_milliseconds()
    ensures
        packet_samples() * 1000 == 2 * SAMPLE_RATE * 20,
        SAMPLE_RATE == 48000,
{
}

/// A packet is made as soon as there are samples enough for one, and not before.
pub proof fn law_a_packet_is_made_when_there_is_enough<S>(action: SendAction, pending: Seq<S>)
    ensures
        pending.len() >= packet_samples() ==> (is_due(action, pending) <==> action is Encode),
        pending.len() < packet_samples() ==> (is_due(action, pending) <==> action is Wait),
{
}

/// The numbers of a stream, in the time that they stand for: packets of 20 milliseconds, room
/// for as many samples as 120 have points in time, and rings of 200, which are to be half
/// full at most.
pub proof fn law_the_numbers_of_a_stream()
    ensures
        CHANNELS == 2,
        SAMPLE_RATE == 48000,
        FRAME_SIZE * 1000 == SAMPLE_RATE * 20,
        MAX_FRAME_SIZE * 1000 == SAMPLE_RATE * 120,
        RING_SIZE * 1000 == SAMPLE_RATE * 200,
        2 * RING_THRESHOLD == RING_SIZE,
{
}

} // verus!
