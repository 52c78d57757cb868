//! The buffers in front of and behind the Opus codec.
//!
//! The codec itself is a C library that works on floating-point samples. What it
//! answers comes in as an argument here.
use vstd::prelude::*;
use vstd::string::StringExecFns;

verus! {

/// An error number of the Opus library, which is negative.
#[derive(Clone, Copy, PartialEq, Eq, Hash, Debug, Structural)]
pub struct OpusError(i32);

impl OpusError {
    /// The number that the library gave.
    pub closed spec fn number(&self) -> i32 {
        self.0
    }

    /// Tells an error from a count: the library answers both in one number.
    pub fn new(error: i32) -> (r: Result<(), Self>)
        ensures
            r is Ok <==> error >= 0,
            r is Err ==> r->Err_0.number() == error,
    {
        if error >= 0 {
            Ok(())
        } else {
            Err(OpusError(error))
        }
    }

    /// The number that the library gave, with which it is asked for a text.
    pub fn code(&self) -> (r: i32)
        ensures
            r == self.number(),
    {
        self.0
    }

    /// The message for this error, made of the text that the library has for it.
    pub fn message(&self, text: &str) -> (r: String)
        ensures
            r@ == "opus: "@ + text@,
    {
        let mut r = String::from_str("opus: ");
        r.append(text);
        r
    }
}

/// What the encoder answered: the size of the packet or an error number, and the
/// buffer that it wrote to.
pub struct Encoded {
    pub size: i32,
    pub buffer: Vec<u8>,
}

/// Samples that wait to be encoded, and the packet that came out last.
pub struct Encoder<S> {
    channels: u32,
    input: Vec<S>,
    output: Vec<u8>,
}

impl<S: Copy> Encoder<S> {
    /// How many samples make one point in time.
    pub closed spec fn channels(&self) -> u32 {
        self.channels
    }

    /// The samples that wait to be encoded.
    pub closed spec fn pending(&self) -> Seq<S> {
        self.input@
    }

    /// What the encoder wrote last.
    pub closed spec fn packet(&self) -> Seq<u8> {
        self.output@
    }

    /// How many samples a packet of `frame_size` points in time takes.
    pub open spec fn frame_len(&self, frame_size: usize) -> int {
        self.channels() * frame_size
    }

    /// Starts with nothing, unless the library refused to make an encoder.
    pub fn new(channels: u32, error: i32) -> (r: Result<Self, OpusError>)
        ensures
            r is Ok <==> error >= 0,
            r is Ok ==> {
                &&& r->Ok_0.channels() == channels
                &&& r->Ok_0.pending() == Seq::<S>::empty()
                &&& r->Ok_0.packet() == Seq::<u8>::empty()
            },
            r is Err ==> r->Err_0.number() == error,
    {
        match OpusError::new(error) {
            Ok(()) => Ok(Encoder { channels, input: Vec::new(), output: Vec::new() }),
            Err(error) => Err(error),
        }
    }

    /// The samples that wait to be encoded, to append to.
    pub fn input(&mut self) -> (r: &mut Vec<S>)
        ensures
            r@ == old(self).pending(),
            final(self).pending() == final(r)@,
            final(self).channels() == old(self).channels(),
            final(self).packet() == old(self).packet(),
    {
        &mut self.input
    }

    /// What the encoder wrote last.
    pub fn output(&self) -> (r: &[u8])
        ensures
            r@ == self.packet(),
    {
        self.output.as_slice()
    }

    /// Whether there are samples enough for a packet of `frame_size` points in time.
    pub fn ready(&self, frame_size: usize) -> (r: bool)
        requires
            self.frame_len(frame_size) <= usize::MAX,
        ensures
            r == (self.pending().len() >= self.frame_len(frame_size)),
            r == (self.pending().len() >= self.channels() * frame_size),
    {
        self.input.len() >= self.channels as usize * frame_size
    }

    /// The samples that the next packet is made of.
    pub fn frame(&self, frame_size: usize) -> (r: &[S])
        requires
            self.frame_len(frame_size) <= self.pending().len(),
        ensures
            r@ == self.pending().take(self.frame_len(frame_size)),
            r@ == self.pending().take(self.channels() * frame_size),
    {
        assert(self.input.len() <= usize::MAX);
        let len: usize = self.channels as usize * frame_size;
        vstd::slice::slice_subrange(self.input.as_slice(), 0, len)
    }

    /// Takes in what the encoder made of the first `frame_size` points in time.
    /// Where it failed, the samples stay; otherwise they go, and the packet is as
    /// much of the buffer as the encoder filled.
    pub fn encode(&mut self, frame_size: usize, max_packet_size: usize, reply: Encoded) -> (r: Result<
        (),
        OpusError,
    >)
        requires
            old(self).frame_len(frame_size) <= old(self).pending().len(),
            reply.buffer@.len() == max_packet_size,
        ensures
            final(self).channels() == old(self).channels(),
            r is Ok <==> reply.size >= 0,
            r is Ok ==> {
                &&& final(self).pending() == old(self).pending().skip(
                    old(self).frame_len(frame_size),
                )
                &&& final(self).pending() == old(self).pending().skip(
                    old(self).channels() * frame_size,
                )
                &&& final(self).packet() == if reply.size <= max_packet_size {
                    reply.buffer@.take(reply.size as int)
                } else {
                    reply.buffer@
                }
            },
            r is Err ==> {
                &&& r->Err_0.number() == reply.size
                &&& final(self).pending() == old(self).pending()
                &&& final(self).packet() == reply.buffer@
            },
    {
        let size: i32 = reply.size;
        self.output = reply.buffer;
        match OpusError::new(size) {
            Ok(()) => {
                assert(self.input.len() <= usize::MAX);
                let len: usize = self.channels as usize * frame_size;
                let rest = self.input.split_off(len);
                self.input = rest;
                self.output.truncate(size as usize);
                Ok(())
            },
            Err(error) => Err(error),
        }
    }
}

/// What the decoder answered: how many points in time the packet held or an error
/// number, and the buffer that it wrote to.
pub struct Decoded<S> {
    pub frames: i32,
    pub buffer: Vec<S>,
}

/// A packet that waits to be decoded, and the samples that came out last.
pub struct Decoder<S> {
    channels: u32,
    input: Vec<u8>,
    output: Vec<S>,
}

impl<S: Copy> Decoder<S> {
    /// How many samples make one point in time.
    pub closed spec fn channels(&self) -> u32 {
        self.channels
    }

    /// The packet that waits to be decoded.
    pub closed spec fn packet(&self) -> Seq<u8> {
        self.input@
    }

    /// The samples that came out last.
    pub closed spec fn samples(&self) -> Seq<S> {
        self.output@
    }

    /// Starts with nothing, unless the library refused to make a decoder.
    pub fn new(channels: u32, error: i32) -> (r: Result<Self, OpusError>)
        ensures
            r is Ok <==> error >= 0,
            r is Ok ==> {
                &&& r->Ok_0.channels() == channels
                &&& r->Ok_0.packet() == Seq::<u8>::empty()
                &&& r->Ok_0.samples() == Seq::<S>::empty()
            },
            r is Err ==> r->Err_0.number() == error,
    {
        match OpusError::new(error) {
            Ok(()) => Ok(Decoder { channels, input: Vec::new(), output: Vec::new() }),
            Err(error) => Err(error),
        }
    }

    /// The packet that waits to be decoded, to be filled.
    pub fn input(&mut self) -> (r: &mut Vec<u8>)
        ensures
            r@ == old(self).packet(),
            final(self).packet() == final(r)@,
            final(self).channels() == old(self).channels(),
            final(self).samples() == old(self).samples(),
    {
        &mut self.input
    }

    /// The packet that waits to be decoded.
    pub fn waiting(&self) -> (r: &[u8])
        ensures
            r@ == self.packet(),
    {
        self.input.as_slice()
    }

    /// The samples that came out last.
    pub fn output(&self) -> (r: &[S])
        ensures
            r@ == self.samples(),
    {
        self.output.as_slice()
    }

    /// Takes in what the decoder made of the packet, which stays as it is. Where it
    /// failed, the whole buffer is kept; otherwise as much of it as was filled.
    pub fn decode(&mut self, max_frame_size: usize, reply: Decoded<S>) -> (r: Result<(), OpusError>)
        requires
            reply.buffer@.len() == max_frame_size,
            old(self).channels() * reply.frames <= usize::MAX,
        ensures
            final(self).channels() == old(self).channels(),
            final(self).packet() == old(self).packet(),
            r is Ok <==> reply.frames >= 0,
            r is Ok ==> final(self).samples() == if old(self).channels() * reply.frames
                <= max_frame_size {
                reply.buffer@.take(old(self).channels() * reply.frames)
            } else {
                reply.buffer@
            },
            r is Err ==> {
                &&& r->Err_0.number() == reply.frames
                &&& final(self).samples() == reply.buffer@
            },
    {
        let frames: i32 = reply.frames;
        self.output = reply.buffer;
        match OpusError::new(frames) {
            Ok(()) => {
                proof {
                    assert(0 <= self.channels * frames) by (nonlinear_arith)
                        requires
                            0 <= frames,
                    ;
                }
                let len: usize = self.channels as usize * frames as usize;
                self.output.truncate(len);
                Ok(())
            },
            Err(error) => Err(error),
        }
    }
}

/// A packet takes one sample for each channel and each point in time.
pub proof fn law_a_packet_takes_every_channel<S: Copy>(
    encoder: Encoder<S>,
    first: usize,
    second: usize,
)
    requires
        first + second <= usize::MAX,
    ensures
        encoder.frame_len((first + second) as usize) == encoder.frame_len(first)
            + encoder.frame_len(second),
        encoder.frame_len(1) == encoder.channels(),
        encoder.frame_len(first) == encoder.channels() * first,
{
    let channels = encoder.channels() as int;
    assert(channels * (first + second) == channels * first + channels * second)
        by (nonlinear_arith);
}

} // verus!
