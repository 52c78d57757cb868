//! The first telephone: sound is resampled between the network and the queue, not between
//! the queue and the device.
//!
//! A sample is the 32 bits of a floating-point number where it waits in a queue.
use crate::audio::{Playback, Slot};
use crate::device::{first_config, stereo_of, ConfigRange, Direction};
use crate::frame::{frames_from_device, interleave, pair, samples_for_device, Frame};
use crate::opus::{Encoder, OpusError};
use crate::peer::TaskEnd;
use crate::queue::RingBuffer;
use crate::speex::{
    is_askable, make_request, Reply, Request, SpeexError, RESAMPLER_ERR_SUCCESS,
};
use crate::voice::{
    RecvAction, RecvEvent, Receiver, SendAction, SendEvent, Sender, CHANNELS, FRAME_SIZE,
    MAX_FRAME_SIZE, SAMPLE_RATE,
};
use vstd::prelude::*;
use vstd::string::StringExecFns;

verus! {

/// How well the resampler works, from 0 to 10.
pub const QUALITY: u32 = 5;

/// How many frames the queue of the microphone has room for.
pub const RECORD_QUEUE: usize = 16 * FRAME_SIZE;

/// How many frames the queue of the speaker has room for.
pub const PLAY_QUEUE: usize = 16 * MAX_FRAME_SIZE;

/// Why a device cannot be used.
#[derive(Clone, Copy, PartialEq, Eq, Debug, Structural)]
pub enum ConfigError {
    /// It offers no configuration.
    NoConfig,
    /// It has neither one channel nor two.
    NotStereoOrMono,
}

/// Which configuration of a device is used, and whether it has two channels, or one.
#[derive(Clone, Copy, PartialEq, Eq, Debug, Structural)]
pub struct ConfigChoice {
    pub config: usize,
    pub stereo: bool,
}

/// What using a configuration comes to.
pub open spec fn chosen(configs: Seq<ConfigRange>, best: int) -> Result<ConfigChoice, ConfigError> {
    if configs[best].channels == 1 || configs[best].channels == 2 {
        Ok(ConfigChoice { config: best as usize, stereo: configs[best].channels == 2 })
    } else {
        Err(ConfigError::NotStereoOrMono)
    }
}

/// Chooses among what a device offers by channels and rate. Only the configuration that
/// comes first is looked at, and what its samples are is not.
pub fn choose_config(configs: &Vec<ConfigRange>) -> (r: Result<ConfigChoice, ConfigError>)
    ensures
        configs@.len() == 0 ==> r == Err::<ConfigChoice, ConfigError>(ConfigError::NoConfig),
        configs@.len() > 0 ==> exists|best: int| #[trigger]
            crate::device::is_first_best(crate::device::keys_of(configs@, true), best) && r
                == chosen(configs@, best),
        r matches Ok(choice) ==> {
            &&& choice.config < configs@.len()
            &&& configs@[choice.config as int].channels == if choice.stereo {
                2u16
            } else {
                1u16
            }
            &&& forall|i: int|
                0 <= i < configs@.len() && (#[trigger] configs@[i]).channels == 2 ==> choice.stereo
            &&& forall|i: int|
                0 <= i < configs@.len() && (#[trigger] configs@[i]).channels
                    == configs@[choice.config as int].channels ==> configs@[i].max_sample_rate
                    <= configs@[choice.config as int].max_sample_rate
        },
        r == Err::<ConfigChoice, ConfigError>(ConfigError::NotStereoOrMono) ==> forall|i: int|
            0 <= i < configs@.len() ==> (#[trigger] configs@[i]).channels != 1
                && configs@[i].channels != 2,
{
    let best: usize = match first_config(configs, true) {
        Some(best) => best,
        None => {
            return Err(ConfigError::NoConfig);
        },
    };
    assert(crate::device::is_first_best(crate::device::keys_of(configs@, true), best as int));
    proof {
        crate::device::law_what_the_best_configuration_is(configs@, true, best as int);
    }
    match stereo_of(configs[best].channels) {
        Some(stereo) => Ok(ConfigChoice { config: best, stereo }),
        None => Err(ConfigError::NotStereoOrMono),
    }
}

/// What to say where a device cannot be used.
pub fn config_message(error: ConfigError, direction: Direction) -> (r: String)
    ensures
        r@ == match (error, direction) {
            (ConfigError::NoConfig, Direction::Input) => "no input configuration"@,
            (ConfigError::NoConfig, Direction::Output) => "no output configuration"@,
            (ConfigError::NotStereoOrMono, Direction::Input) =>
                "no input configuration which is stereo or mono"@,
            (ConfigError::NotStereoOrMono, Direction::Output) =>
                "no output configuration which is stereo or mono"@,
        },
{
    match error {
        ConfigError::NoConfig => match direction {
            Direction::Input => String::from_str("no input configuration"),
            Direction::Output => String::from_str("no output configuration"),
        },
        ConfigError::NotStereoOrMono => match direction {
            Direction::Input => String::from_str("no input configuration which is stereo or mono"),
            Direction::Output => String::from_str("no output configuration which is stereo or mono"),
        },
    }
}

/// What to say where the Opus library failed. `text` is what it has to say.
pub fn opus_message(text: &str) -> (r: String)
    ensures
        r@ == "opus error: "@ + text@,
{
    let mut r = String::from_str("opus error: ");
    r.append(text);
    r
}

/// What to say where the Speex library failed. `text` is what it has to say.
pub fn speex_message(text: &str) -> (r: String)
    ensures
        r@ == "speex error: "@ + text@,
{
    let mut r = String::from_str("speex error: ");
    r.append(text);
    r
}

/// Refuses to make a packet of too few samples.
pub fn ensure_ready<S: Copy>(encoder: &Encoder<S>, frame_size: usize) -> (r: Result<(), String>)
    requires
        encoder.frame_len(frame_size) <= usize::MAX,
    ensures
        r is Ok <==> encoder.pending().len() >= encoder.frame_len(frame_size),
        r is Err ==> r->Err_0@ == "not enough samples"@,
{
    if encoder.ready(frame_size) {
        Ok(())
    } else {
        Err(String::from_str("not enough samples"))
    }
}

/// The frames that a device recorded. Samples of another kind than expected give none.
pub fn data_to_frames<S: Copy>(data: Option<&[S]>, stereo: bool) -> (r: Vec<Frame<S>>)
    ensures
        data is Some ==> r@ == crate::frame::framed(data->0@, stereo),
        data is None ==> r@ == Seq::<Frame<S>>::empty(),
{
    match data {
        Some(samples) => frames_from_device(samples, stereo),
        None => Vec::new(),
    }
}

/// How many frames are taken from the queue to fill `len` places: enough for one sample
/// more than there are places.
pub open spec fn frames_to_fill(len: int, stereo: bool) -> int {
    if stereo {
        (len + 2) / 2
    } else {
        len + 1
    }
}

/// `len` places filled with `samples`, and with silence where there are too few.
pub open spec fn filled<S>(samples: Seq<S>, len: int) -> Seq<Slot<S>> {
    if samples.len() >= len {
        crate::audio::sounding(samples.take(len))
    } else {
        crate::audio::sounding(samples) + crate::audio::silent::<S>(len - samples.len())
    }
}

/// What a device with `len` places plays of what waits in the queue. One sample is taken
/// ahead; it is not played, and neither is its partner.
pub fn frames_to_data<F: Fn(u32, u32) -> u32>(
    queue: &mut RingBuffer,
    len: usize,
    stereo: bool,
    mix: &F,
) -> (r: Vec<Slot<u32>>)
    requires
        old(queue).wf(),
        len + 2 <= usize::MAX,
        forall|a: u32, b: u32| call_requires(*mix, (a, b)),
    ensures
        final(queue).wf(),
        final(queue).limit() == old(queue).limit(),
        ({
            let taken = crate::ring::at_most(old(queue)@, frames_to_fill(len as int, stereo));
            &&& final(queue)@ == old(queue)@.skip(taken)
            &&& exists|samples: Seq<u32>|
                {
                    &&& #[trigger] crate::frame::is_played(
                        samples,
                        old(queue)@.take(taken),
                        stereo,
                        *mix,
                    )
                    &&& r@ == filled(samples, len as int)
                }
        }),
        r@.len() == len,
        stereo ==> forall|i: int|
            0 <= i < len ==> #[trigger] r@[i] == if i / 2 >= old(queue)@.len() {
                Slot::Equilibrium
            } else if i % 2 == 0 {
                Slot::Sample(old(queue)@[i / 2].left)
            } else {
                Slot::Sample(old(queue)@[i / 2].right)
            },
        !stereo ==> forall|i: int|
            0 <= i < len ==> if i >= old(queue)@.len() {
                (#[trigger] r@[i]) == Slot::<u32>::Equilibrium
            } else {
                &&& r@[i] matches Slot::Sample(sample)
                &&& call_ensures(*mix, (old(queue)@[i].left, old(queue)@[i].right), sample)
            },
        final(queue)@.len() <= old(queue)@.len(),
        final(queue)@ == old(queue)@.skip(old(queue)@.len() - final(queue)@.len()),
        ({
            let taken = old(queue)@.len() - final(queue)@.len();
            let places = if stereo {
                2 * taken
            } else {
                taken
            };
            &&& places <= len + 2
            &&& places <= len ==> final(queue)@.len() == 0
        }),
{
    let wanted: usize = if stereo {
        (len + 2) / 2
    } else {
        len + 1
    };
    let frames: Vec<Frame<u32>> = queue.take(wanted);
    let samples: Vec<u32> = samples_for_device(&frames, stereo, mix);
    assert(wanted == frames_to_fill(len as int, stereo));
    assert(crate::frame::is_played(samples@, frames@, stereo, *mix));
    let mut slots: Vec<Slot<u32>> = Vec::new();
    let mut i: usize = 0;
    while i < len && i < samples.len()
        invariant
            i <= len,
            i <= samples@.len(),
            slots@ == crate::audio::sounding(samples@.take(i as int)),
        decreases len - i,
    {
        slots.push(Slot::Sample(samples[i]));
        i += 1;
        assert(slots@ =~= crate::audio::sounding(samples@.take(i as int)));
    }
    Playback::silence(&mut slots, len);
    assert(slots@ =~= filled(samples@, len as int));
    slots
}

/// A resampler that is handed its samples each time and keeps only what it made.
pub struct Resampler<S> {
    channels: u32,
    in_rate: u32,
    out_rate: u32,
    out_buffer: Vec<S>,
}

impl<S: Copy> Resampler<S> {
    /// How many samples make one point in time.
    pub closed spec fn channels(&self) -> u32 {
        self.channels
    }

    /// The rate of the samples that go in.
    pub closed spec fn in_rate(&self) -> u32 {
        self.in_rate
    }

    /// The rate of the samples that come out.
    pub closed spec fn out_rate(&self) -> u32 {
        self.out_rate
    }

    /// Whether the resampler can be asked about `len` samples.
    pub open spec fn can_resample(&self, len: int) -> bool {
        crate::speex::can_ask(len, self.channels(), self.in_rate(), self.out_rate())
    }

    /// What the resampler is asked to do with `len` samples.
    pub open spec fn asked(&self, len: int) -> Request {
        crate::speex::request_for(len, self.channels(), self.in_rate(), self.out_rate())
    }

    /// Starts with nothing, unless the library refused to make a resampler.
    pub fn new(channels: u32, in_rate: u32, out_rate: u32, error: i32) -> (r: Result<
        Self,
        SpeexError,
    >)
        ensures
            r is Ok <==> error == RESAMPLER_ERR_SUCCESS,
            r is Ok ==> {
                &&& r->Ok_0.channels() == channels
                &&& r->Ok_0.in_rate() == in_rate
                &&& r->Ok_0.out_rate() == out_rate
            },
            r is Err ==> r->Err_0.number() == error,
    {
        match SpeexError::new(error) {
            Ok(()) => Ok(Resampler { channels, in_rate, out_rate, out_buffer: Vec::new() }),
            Err(error) => Err(error),
        }
    }

    /// Whether the resampler can be asked about `len` samples.
    pub fn is_usable(&self, len: usize) -> (r: bool)
        ensures
            r == self.can_resample(len as int),
            r == crate::speex::can_ask(
                len as int,
                self.channels(),
                self.in_rate(),
                self.out_rate(),
            ),
    {
        is_askable(len, self.channels, self.in_rate, self.out_rate)
    }

    /// What the resampler is to be asked about `len` samples.
    pub fn request(&self, len: usize) -> (r: Request)
        requires
            self.can_resample(len as int),
        ensures
            r == self.asked(len as int),
            r == crate::speex::request_for(
                len as int,
                self.channels(),
                self.in_rate(),
                self.out_rate(),
            ),
    {
        make_request(len, self.channels, self.in_rate, self.out_rate)
    }

    /// Takes in what the resampler made of `in_buffer`: how many points in time it has
    /// read, and what it wrote.
    pub fn resample(&mut self, in_buffer: &[S], reply: Reply<S>) -> (r: Result<
        (u32, &[S]),
        SpeexError,
    >)
        requires
            old(self).can_resample(in_buffer@.len() as int),
            reply.answers(old(self).asked(in_buffer@.len() as int)),
        ensures
            final(self).channels() == old(self).channels(),
            final(self).in_rate() == old(self).in_rate(),
            final(self).out_rate() == old(self).out_rate(),
            r is Ok <==> reply.error == RESAMPLER_ERR_SUCCESS,
            r is Ok ==> {
                &&& r->Ok_0.0 == reply.in_len
                &&& r->Ok_0.1@ == reply.buffer@.take(old(self).channels() * reply.out_len)
                &&& old(self).channels() * reply.in_len <= in_buffer@.len()
                &&& old(self).channels() * reply.out_len <= reply.buffer@.len()
            },
            r is Err ==> r->Err_0.number() == reply.error,
    {
        proof {
            crate::speex::lemma_reply_fits(
                in_buffer@.len() as int,
                self.channels,
                self.in_rate,
                self.out_rate,
                reply,
            );
        }
        let in_len: u32 = reply.in_len;
        let out_len: u32 = reply.out_len;
        self.out_buffer = reply.buffer;
        match SpeexError::new(reply.error) {
            Ok(()) => {
                let end: usize = (self.channels * out_len) as usize;
                Ok((in_len, vstd::slice::slice_subrange(self.out_buffer.as_slice(), 0, end)))
            },
            Err(error) => Err(error),
        }
    }
}

/// What can happen while recording.
pub enum RecordEvent<S> {
    /// Somebody has looked whether it is time to stop, and it is, or not.
    Looked(bool),
    /// The queue of the microphone had something, and these frames were in it.
    Woken(Vec<Frame<S>>),
    /// The resampler has answered.
    Resampled(Reply<S>),
    /// The encoder has answered.
    Encoded(crate::opus::Encoded),
    /// What was to be written to the stream has been written.
    Written,
}

/// What is done next while recording.
#[derive(Debug)]
pub enum RecordAction {
    /// Look whether it is time to stop.
    Look,
    /// Wait until the queue has something.
    Wait,
    /// Tell the other side that there will be no more, because it is time to stop.
    Finish,
    /// Have the resampler work on what was collected.
    Resample,
    /// Have the encoder make a packet.
    Encode,
    /// Write to the stream.
    Write(Vec<u8>),
    /// Stop, because the resampler failed.
    ResampleFailed(SpeexError),
    /// Stop, because the encoder failed.
    EncodeFailed(OpusError),
}

/// Whether recording goes on as the sending side does.
pub open spec fn as_sender(action: RecordAction, sender: SendAction) -> bool {
    match sender {
        SendAction::Wait => action is Look,
        SendAction::Encode => action is Encode,
        SendAction::Write(bytes) => action matches RecordAction::Write(same) && same@ == bytes@,
        SendAction::Stop(error) => action == RecordAction::EncodeFailed(error),
    }
}

fn record_action(action: SendAction) -> (r: RecordAction)
    ensures
        as_sender(r, action),
{
    match action {
        SendAction::Wait => RecordAction::Look,
        SendAction::Encode => RecordAction::Encode,
        SendAction::Write(bytes) => RecordAction::Write(bytes),
        SendAction::Stop(error) => RecordAction::EncodeFailed(error),
    }
}

/// From the queue of a microphone to packets on a stream.
pub struct RecordLoop<S> {
    buffer: Vec<S>,
    resampler: Resampler<S>,
    sender: Sender<S>,
}

impl<S: Copy> RecordLoop<S> {
    /// The resampler makes samples for the stream.
    pub closed spec fn wf(&self) -> bool {
        &&& self.sender.wf()
        &&& self.resampler.channels() == CHANNELS
        &&& self.resampler.out_rate() == SAMPLE_RATE
    }

    /// The rate of the device.
    pub closed spec fn in_rate(&self) -> u32 {
        self.resampler.in_rate()
    }

    /// The samples that were collected and not resampled yet.
    pub closed spec fn collected(&self) -> Seq<S> {
        self.buffer@
    }

    /// The samples that are in no packet yet.
    pub closed spec fn pending(&self) -> Seq<S> {
        self.sender.pending()
    }

    /// Whether the resampler can be asked about what was collected.
    pub open spec fn can_resample(&self) -> bool {
        crate::speex::can_ask(
            self.collected().len() as int,
            CHANNELS,
            self.in_rate(),
            SAMPLE_RATE,
        )
    }

    /// What the resampler is asked to do with what was collected.
    pub open spec fn asked(&self) -> Request {
        crate::speex::request_for(
            self.collected().len() as int,
            CHANNELS,
            self.in_rate(),
            SAMPLE_RATE,
        )
    }

    /// Starts with nothing, for a device with a rate of `raw_sample_rate`. The resampler is
    /// made first, and the encoder where that worked.
    pub fn new(raw_sample_rate: u32, resampler_error: i32, encoder_error: i32) -> (r: Result<
        Self,
        RecordAction,
    >)
        ensures
            match r {
                Ok(recorder) => {
                    &&& resampler_error == RESAMPLER_ERR_SUCCESS
                    &&& encoder_error >= 0
                    &&& recorder.wf()
                    &&& recorder.in_rate() == raw_sample_rate
                    &&& recorder.collected() == Seq::<S>::empty()
                    &&& recorder.pending() == Seq::<S>::empty()
                },
                Err(action) => if resampler_error != RESAMPLER_ERR_SUCCESS {
                    action matches RecordAction::ResampleFailed(error) && error.number()
                        == resampler_error
                } else {
                    &&& encoder_error < 0
                    &&& action matches RecordAction::EncodeFailed(error) && error.number()
                        == encoder_error
                },
            },
    {
        let resampler = match Resampler::new(
            CHANNELS,
            raw_sample_rate,
            SAMPLE_RATE,
            resampler_error,
        ) {
            Ok(resampler) => resampler,
            Err(error) => {
                return Err(RecordAction::ResampleFailed(error));
            },
        };
        match Sender::new(encoder_error) {
            Ok(sender) => Ok(RecordLoop { buffer: Vec::new(), resampler, sender }),
            Err(error) => Err(RecordAction::EncodeFailed(error)),
        }
    }

    /// Whether the resampler can be asked about what was collected.
    pub fn is_usable(&self) -> (r: bool)
        requires
            self.wf(),
        ensures
            r == self.can_resample(),
            r == crate::speex::can_ask(
                self.collected().len() as int,
                2,
                self.in_rate(),
                48000,
            ),
    {
        self.resampler.is_usable(self.buffer.len())
    }

    /// What the resampler is to be asked.
    pub fn request(&self) -> (r: Request)
        requires
            self.wf(),
            self.can_resample(),
        ensures
            r == self.asked(),
            r == crate::speex::request_for(
                self.collected().len() as int,
                2,
                self.in_rate(),
                48000,
            ),
    {
        self.resampler.request(self.buffer.len())
    }

    /// The samples that were collected and not resampled yet.
    pub fn waiting(&self) -> (r: &[S])
        ensures
            r@ == self.collected(),
    {
        self.buffer.as_slice()
    }

    /// The samples that the encoder is to make the next packet of.
    pub fn frame(&self) -> (r: &[S])
        requires
            self.wf(),
            self.pending().len() >= crate::voice::packet_samples(),
        ensures
            r@ == self.pending().take(crate::voice::packet_samples()),
    {
        self.sender.frame()
    }

    /// Refuses to make a packet of too few samples.
    pub fn ensure_ready(&self) -> (r: Result<(), String>)
        requires
            self.wf(),
        ensures
            r is Ok <==> self.pending().len() >= crate::voice::packet_samples(),
            r is Err ==> r->Err_0@ == "not enough samples"@,
    {
        ensure_ready(self.sender.encoder(), FRAME_SIZE)
    }

    /// Goes on after `event`: what was collected is resampled, packets are made as long as
    /// there are samples enough, and then more is waited for, unless it is time to stop.
    pub fn step(&mut self, event: RecordEvent<S>) -> (r: RecordAction)
        requires
            old(self).wf(),
            event matches RecordEvent::Resampled(reply) ==> {
                &&& old(self).can_resample()
                &&& reply.answers(old(self).asked())
            },
            event matches RecordEvent::Encoded(reply) ==> {
                &&& old(self).pending().len() >= crate::voice::packet_samples()
                &&& reply.buffer@.len() == crate::voice::MAX_PACKET_SIZE
            },
        ensures
            final(self).wf(),
            final(self).in_rate() == old(self).in_rate(),
            match event {
                RecordEvent::Looked(over) => {
                    &&& over ==> r is Finish
                    &&& !over ==> r is Wait
                    &&& final(self).collected() == old(self).collected()
                    &&& final(self).pending() == old(self).pending()
                },
                RecordEvent::Woken(frames) => {
                    &&& r is Resample
                    &&& final(self).collected() == old(self).collected()
                        + crate::frame::interleaved(frames@)
                    &&& final(self).pending() == old(self).pending()
                },
                RecordEvent::Resampled(reply) => if reply.error != RESAMPLER_ERR_SUCCESS {
                    &&& r matches RecordAction::ResampleFailed(error) && error.number()
                        == reply.error
                    &&& final(self).collected() == old(self).collected()
                    &&& final(self).pending() == old(self).pending()
                } else {
                    &&& final(self).collected() == old(self).collected().skip(
                        CHANNELS * reply.in_len,
                    )
                    &&& final(self).pending() == old(self).pending() + reply.buffer@.take(
                        CHANNELS * reply.out_len,
                    )
                    &&& if final(self).pending().len() >= crate::voice::packet_samples() {
                        r is Encode
                    } else {
                        r is Look
                    }
                },
                RecordEvent::Encoded(reply) => {
                    &&& final(self).collected() == old(self).collected()
                    &&& if reply.size < 0 {
                        &&& final(self).pending() == old(self).pending()
                        &&& r matches RecordAction::EncodeFailed(error) && error.number()
                            == reply.size
                    } else {
                        &&& final(self).pending() == old(self).pending().skip(
                            crate::voice::packet_samples(),
                        )
                        &&& if crate::voice::written_packet(reply).len() > 0 {
                            r matches RecordAction::Write(bytes) && bytes@
                                == crate::packet::on_wire(crate::voice::written_packet(reply))
                        } else if final(self).pending().len() >= crate::voice::packet_samples() {
                            r is Encode
                        } else {
                            r is Look
                        }
                    }
                },
                RecordEvent::Written => {
                    &&& final(self).collected() == old(self).collected()
                    &&& final(self).pending() == old(self).pending()
                    &&& if final(self).pending().len() >= crate::voice::packet_samples() {
                        r is Encode
                    } else {
                        r is Look
                    }
                },
            },
    {
        match event {
            RecordEvent::Looked(over) => if over {
                RecordAction::Finish
            } else {
                RecordAction::Wait
            },
            RecordEvent::Woken(frames) => {
                let mut samples: Vec<S> = interleave(&frames);
                self.buffer.append(&mut samples);
                RecordAction::Resample
            },
            RecordEvent::Resampled(reply) => match self.resampler.resample(
                self.buffer.as_slice(),
                reply,
            ) {
                Ok((n, resampled)) => {
                    let action = self.sender.absorb_samples(resampled);
                    let rest = self.buffer.split_off((n * CHANNELS) as usize);
                    self.buffer = rest;
                    record_action(action)
                },
                Err(error) => RecordAction::ResampleFailed(error),
            },
            RecordEvent::Encoded(reply) => record_action(
                self.sender.step(SendEvent::Encoded(reply)),
            ),
            RecordEvent::Written => record_action(self.sender.step(SendEvent::Written)),
        }
    }
}

/// What is done next while playing.
#[derive(Debug)]
pub enum PlayAction {
    /// Look whether it is time to stop.
    Look,
    /// Read the four bytes in front of a packet.
    ReadHeader,
    /// Read a packet of so many bytes.
    ReadBody(usize),
    /// Have the decoder work on the packet.
    Decode,
    /// Have the resampler work on what was decoded.
    Resample,
    /// Stop, because it is time to.
    Finish,
    /// Stop, because the decoder failed.
    DecodeFailed(OpusError),
    /// Stop, because the resampler failed.
    ResampleFailed(SpeexError),
}

/// What can happen while playing.
pub enum PlayEvent {
    /// Somebody has looked whether it is time to stop, and it is, or not.
    Looked(bool),
    /// The four bytes in front of a packet have come.
    Header([u8; 4]),
    /// The packet has come.
    Body(Vec<u8>),
    /// The decoder has answered.
    Decoded(crate::opus::Decoded<u32>),
    /// The resampler has answered.
    Resampled(Reply<u32>),
}

/// From packets on a stream to the queue of a speaker.
pub struct PlayLoop {
    buffer: Vec<u32>,
    resampler: Resampler<u32>,
    receiver: Receiver<u32>,
}

impl PlayLoop {
    /// The resampler takes the samples of the stream.
    pub closed spec fn wf(&self) -> bool {
        &&& self.receiver.wf()
        &&& self.resampler.channels() == CHANNELS
        &&& self.resampler.in_rate() == SAMPLE_RATE
    }

    /// The rate of the device.
    pub closed spec fn out_rate(&self) -> u32 {
        self.resampler.out_rate()
    }

    /// The samples that were decoded and not resampled yet.
    pub closed spec fn collected(&self) -> Seq<u32> {
        self.buffer@
    }

    /// The packet that waits to be decoded.
    pub closed spec fn packet(&self) -> Seq<u8> {
        self.receiver.packet()
    }

    /// Whether the resampler can be asked about what was decoded.
    pub open spec fn can_resample(&self) -> bool {
        crate::speex::can_ask(
            self.collected().len() as int,
            CHANNELS,
            SAMPLE_RATE,
            self.out_rate(),
        )
    }

    /// What the resampler is asked to do with what was decoded.
    pub open spec fn asked(&self) -> Request {
        crate::speex::request_for(
            self.collected().len() as int,
            CHANNELS,
            SAMPLE_RATE,
            self.out_rate(),
        )
    }

    /// Starts with nothing, for a device with a rate of `raw_sample_rate`. The decoder is
    /// made first, and the resampler where that worked.
    pub fn new(raw_sample_rate: u32, decoder_error: i32, resampler_error: i32) -> (r: Result<
        Self,
        PlayAction,
    >)
        ensures
            match r {
                Ok(player) => {
                    &&& decoder_error >= 0
                    &&& resampler_error == RESAMPLER_ERR_SUCCESS
                    &&& player.wf()
                    &&& player.out_rate() == raw_sample_rate
                    &&& player.collected() == Seq::<u32>::empty()
                    &&& player.packet() == Seq::<u8>::empty()
                },
                Err(action) => if decoder_error < 0 {
                    action matches PlayAction::DecodeFailed(error) && error.number()
                        == decoder_error
                } else {
                    &&& resampler_error != RESAMPLER_ERR_SUCCESS
                    &&& action matches PlayAction::ResampleFailed(error) && error.number()
                        == resampler_error
                },
            },
    {
        let receiver = match Receiver::new(decoder_error) {
            Ok(receiver) => receiver,
            Err(error) => {
                return Err(PlayAction::DecodeFailed(error));
            },
        };
        match Resampler::new(CHANNELS, SAMPLE_RATE, raw_sample_rate, resampler_error) {
            Ok(resampler) => Ok(PlayLoop { buffer: Vec::new(), resampler, receiver }),
            Err(error) => Err(PlayAction::ResampleFailed(error)),
        }
    }

    /// Whether the resampler can be asked about what was decoded.
    pub fn is_usable(&self) -> (r: bool)
        requires
            self.wf(),
        ensures
            r == self.can_resample(),
            r == crate::speex::can_ask(
                self.collected().len() as int,
                2,
                48000,
                self.out_rate(),
            ),
    {
        self.resampler.is_usable(self.buffer.len())
    }

    /// What the resampler is to be asked.
    pub fn request(&self) -> (r: Request)
        requires
            self.wf(),
            self.can_resample(),
        ensures
            r == self.asked(),
            r == crate::speex::request_for(
                self.collected().len() as int,
                2,
                48000,
                self.out_rate(),
            ),
    {
        self.resampler.request(self.buffer.len())
    }

    /// The samples that were decoded and not resampled yet.
    pub fn waiting(&self) -> (r: &[u32])
        ensures
            r@ == self.collected(),
    {
        self.buffer.as_slice()
    }

    /// The packet that waits to be decoded.
    pub fn waiting_packet(&self) -> (r: &[u8])
        ensures
            r@ == self.packet(),
    {
        self.receiver.waiting()
    }

    /// Goes on after `event`: a packet is read in two parts, decoded and resampled, what
    /// came out is put into the queue, and then the next one is read, unless it is time to
    /// stop. The resampler counts points in time, and as many single samples go.
    pub fn step(&mut self, event: PlayEvent, queue: &mut RingBuffer) -> (r: PlayAction)
        requires
            old(self).wf(),
            old(queue).wf(),
            event matches PlayEvent::Decoded(reply) ==> {
                &&& reply.buffer@.len() == MAX_FRAME_SIZE
                &&& CHANNELS * reply.frames <= usize::MAX
            },
            event matches PlayEvent::Resampled(reply) ==> {
                &&& old(self).can_resample()
                &&& reply.answers(old(self).asked())
            },
        ensures
            final(self).wf(),
            final(self).out_rate() == old(self).out_rate(),
            final(queue).wf(),
            final(queue).limit() == old(queue).limit(),
            final(self).packet() == match event {
                PlayEvent::Body(bytes) => bytes@,
                _ => old(self).packet(),
            },
            match event {
                PlayEvent::Looked(over) => {
                    &&& over ==> r is Finish
                    &&& !over ==> r is ReadHeader
                    &&& final(self).collected() == old(self).collected()
                    &&& final(queue)@ == old(queue)@
                },
                PlayEvent::Header(header) => {
                    &&& r matches PlayAction::ReadBody(len) && len == crate::packet::le_value(
                        header@,
                    )
                    &&& final(self).collected() == old(self).collected()
                    &&& final(queue)@ == old(queue)@
                },
                PlayEvent::Body(_) => {
                    &&& r is Decode
                    &&& final(self).collected() == old(self).collected()
                    &&& final(queue)@ == old(queue)@
                },
                PlayEvent::Decoded(reply) => {
                    &&& final(queue)@ == old(queue)@
                    &&& if reply.frames < 0 {
                        &&& r matches PlayAction::DecodeFailed(error) && error.number()
                            == reply.frames
                        &&& final(self).collected() == old(self).collected()
                    } else {
                        &&& r is Resample
                        &&& final(self).collected() == old(self).collected()
                            + crate::voice::written_samples(reply)
                    }
                },
                PlayEvent::Resampled(reply) => if reply.error != RESAMPLER_ERR_SUCCESS {
                    &&& r matches PlayAction::ResampleFailed(error) && error.number()
                        == reply.error
                    &&& final(self).collected() == old(self).collected()
                    &&& final(queue)@ == old(queue)@
                } else {
                    &&& r is Look
                    &&& final(self).collected() == old(self).collected().skip(
                        reply.in_len as int,
                    )
                    &&& final(queue)@ == crate::queue::retained(
                        old(queue)@ + crate::frame::paired(
                            reply.buffer@.take(CHANNELS * reply.out_len),
                        ),
                        old(queue).limit() as int,
                    )
                },
            },
    {
        match event {
            PlayEvent::Looked(over) => if over {
                PlayAction::Finish
            } else {
                PlayAction::ReadHeader
            },
            PlayEvent::Header(header) => match self.receiver.step(RecvEvent::Header(header)) {
                RecvAction::ReadBody(len) => PlayAction::ReadBody(len),
                _ => PlayAction::Look,
            },
            PlayEvent::Body(bytes) => {
                let _ = self.receiver.step(RecvEvent::Body(bytes));
                PlayAction::Decode
            },
            PlayEvent::Decoded(reply) => match self.receiver.step(RecvEvent::Decoded(reply)) {
                RecvAction::Deliver(frames) => {
                    let mut samples: Vec<u32> = interleave(&frames);
                    self.buffer.append(&mut samples);
                    PlayAction::Resample
                },
                RecvAction::Stop(error) => PlayAction::DecodeFailed(error),
                _ => PlayAction::Look,
            },
            PlayEvent::Resampled(reply) => match self.resampler.resample(
                self.buffer.as_slice(),
                reply,
            ) {
                Ok((n, resampled)) => {
                    queue.extend(&pair(resampled));
                    let rest = self.buffer.split_off(n as usize);
                    self.buffer = rest;
                    PlayAction::Look
                },
                Err(error) => PlayAction::ResampleFailed(error),
            },
        }
    }
}

/// How far a call is.
#[derive(Clone, Copy, PartialEq, Eq, Debug, Structural)]
pub enum CommuteStep {
    /// It goes on until the user interrupts it.
    Talk,
    /// The recording task is waited for.
    JoinRecord,
    /// The playing task is waited for.
    JoinPlay,
    /// It is over.
    Done,
    /// The interrupt could not be waited for.
    NotInterrupted,
    /// The user has interrupted it, and a task was stopped from outside.
    Failed,
}

/// Whether the user has interrupted the call.
pub open spec fn interrupted(step: CommuteStep) -> bool {
    step != CommuteStep::Talk && step != CommuteStep::NotInterrupted
}

/// Whether the tasks are to stop: they are as soon as the user has interrupted the call, and
/// from then on.
pub fn is_over(step: CommuteStep) -> (r: bool)
    ensures
        r == interrupted(step),
        r <==> step != CommuteStep::Talk && step != CommuteStep::NotInterrupted,
{
    match step {
        CommuteStep::Talk | CommuteStep::NotInterrupted => false,
        _ => true,
    }
}

/// Goes on after what was waited for has ended, the interrupt or a task, and tells whether
/// a task's failure is to be printed. A task that failed does not keep one from waiting for
/// the other.
pub fn commute_step(step: CommuteStep, end: TaskEnd) -> (r: (CommuteStep, bool))
    ensures
        r.0 == match step {
            CommuteStep::Talk => if end == TaskEnd::Finished {
                CommuteStep::JoinRecord
            } else {
                CommuteStep::NotInterrupted
            },
            CommuteStep::JoinRecord => if end == TaskEnd::Aborted {
                CommuteStep::Failed
            } else {
                CommuteStep::JoinPlay
            },
            CommuteStep::JoinPlay => if end == TaskEnd::Aborted {
                CommuteStep::Failed
            } else {
                CommuteStep::Done
            },
            _ => step,
        },
        interrupted(step) ==> interrupted(r.0),
        r.1 == ((step == CommuteStep::JoinRecord || step == CommuteStep::JoinPlay) && end
            == TaskEnd::Failed),
{
    match (step, end) {
        (CommuteStep::Talk, TaskEnd::Finished) => (CommuteStep::JoinRecord, false),
        (CommuteStep::Talk, _) => (CommuteStep::NotInterrupted, false),
        (CommuteStep::JoinRecord, TaskEnd::Finished) => (CommuteStep::JoinPlay, false),
        (CommuteStep::JoinRecord, TaskEnd::Failed) => (CommuteStep::JoinPlay, true),
        (CommuteStep::JoinRecord, TaskEnd::Aborted) => (CommuteStep::Failed, false),
        (CommuteStep::JoinPlay, TaskEnd::Finished) => (CommuteStep::Done, false),
        (CommuteStep::JoinPlay, TaskEnd::Failed) => (CommuteStep::Done, true),
        (CommuteStep::JoinPlay, TaskEnd::Aborted) => (CommuteStep::Failed, false),
        (CommuteStep::Done, _) => (CommuteStep::Done, false),
        (CommuteStep::NotInterrupted, _) => (CommuteStep::NotInterrupted, false),
        (CommuteStep::Failed, _) => (CommuteStep::Failed, false),
    }
}

/// A configuration can be used exactly where it has one channel or two.
pub proof fn law_which_configurations_can_be_chosen(configs: Seq<ConfigRange>, best: int)
    requires
        0 <= best < configs.len() <= usize::MAX,
    ensures
        chosen(configs, best) is Ok <==> configs[best].channels == 1 || configs[best].channels
            == 2,
        chosen(configs, best) matches Ok(choice) ==> {
            &&& choice.config == best
            &&& choice.stereo <==> configs[best].channels == 2
        },
        chosen(configs, best) matches Err(error) ==> error == ConfigError::NotStereoOrMono,
{
}

/// Just so many frames are taken that there is a sample for each place, and one more.
pub proof fn law_one_sample_more_than_there_are_places(len: int)
    requires
        0 <= len,
    ensures
        2 * (frames_to_fill(len, true) - 1) < len + 1 <= 2 * frames_to_fill(len, true),
        frames_to_fill(len, false) == len + 1,
{
}

/// Every place is filled: with the sample that stands where it does, or with silence where
/// there is none.
pub proof fn law_every_place_is_filled<S>(samples: Seq<S>, len: int, i: int)
    requires
        0 <= len,
    ensures
        filled(samples, len).len() == len,
        0 <= i < len && i < samples.len() ==> filled(samples, len)[i] == Slot::Sample(samples[i]),
        samples.len() <= i < len ==> filled(samples, len)[i] == Slot::<S>::Equilibrium,
{
}

/// A call is interrupted once it is neither going on nor given up for want of an interrupt.
pub proof fn law_when_a_call_is_interrupted(step: CommuteStep)
    ensures
        !interrupted(step) <==> step == CommuteStep::Talk || step == CommuteStep::NotInterrupted,
{
}

} // verus!
