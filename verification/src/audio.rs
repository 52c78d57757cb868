//! What happens each time an audio device brings or wants samples.
use crate::frame::{frames_from_device, samples_for_device, Frame};
use crate::ring::{Consumer, Producer, Ring};
use crate::speex::{Reply, Request, Resampler, SpeexError};
use crate::voice::{RING_SIZE, SAMPLE_RATE};
use vstd::prelude::*;

verus! {

/// How many samples a device has for one point in time.
pub open spec fn device_channels(stereo: bool) -> u32 {
    if stereo {
        2
    } else {
        1
    }
}

/// What became of the samples that a device brought.
#[derive(Clone, Copy, PartialEq, Eq, Debug, Structural)]
pub enum Recorded {
    /// The microphone is muted, and they are gone.
    Muted,
    /// They were put into the ring, except the last `dropped` frames, for which it had
    /// no room.
    Stored { dropped: usize },
}

/// Samples on their way from a microphone to a ring.
pub struct Capture<S> {
    stereo: bool,
    resampler: Resampler<S>,
}

impl<S: Copy> Capture<S> {
    /// The resampler has the channels of the device and the rate of the stream.
    pub open spec fn wf(&self) -> bool {
        &&& self.resampler().channels() == device_channels(self.stereo())
        &&& self.resampler().out_rate() == SAMPLE_RATE
    }

    /// Whether the device has two channels, or one.
    pub closed spec fn stereo(&self) -> bool {
        self.stereo
    }

    /// The samples and the rates of the resampler.
    pub closed spec fn resampler(&self) -> Resampler<S> {
        self.resampler
    }

    /// Starts with nothing, for a device with a rate of `sample_rate`, unless the
    /// resampler could not be made.
    pub fn new(stereo: bool, sample_rate: u32, error: i32) -> (r: Result<Self, SpeexError>)
        ensures
            r is Ok <==> error == crate::speex::RESAMPLER_ERR_SUCCESS,
            r is Ok ==> {
                &&& r->Ok_0.wf()
                &&& r->Ok_0.stereo() == stereo
                &&& r->Ok_0.resampler().in_rate() == sample_rate
                &&& r->Ok_0.resampler().out_rate() == 48000
                &&& r->Ok_0.resampler().channels() == if stereo {
                    2u32
                } else {
                    1u32
                }
                &&& r->Ok_0.resampler().pending() == Seq::<S>::empty()
                &&& r->Ok_0.resampler().samples() == Seq::<S>::empty()
            },
            r is Err ==> r->Err_0.number() == error,
    {
        let channels: u32 = if stereo {
            2
        } else {
            1
        };
        match Resampler::new(channels, sample_rate, SAMPLE_RATE, error) {
            Ok(resampler) => Ok(Capture { stereo, resampler }),
            Err(error) => Err(error),
        }
    }

    /// Takes in the samples that the device brought.
    pub fn feed(&mut self, mut samples: Vec<S>)
        requires
            old(self).wf(),
        ensures
            final(self).wf(),
            final(self).stereo() == old(self).stereo(),
            final(self).resampler().in_rate() == old(self).resampler().in_rate(),
            final(self).resampler().pending() == old(self).resampler().pending() + samples@,
            final(self).resampler().samples() == old(self).resampler().samples(),
    {
        self.resampler.input().append(&mut samples);
    }

    /// Whether the resampler can be asked.
    pub fn is_usable(&self) -> (r: bool)
        ensures
            r == self.resampler().can_resample(),
            r == crate::speex::can_ask(
                self.resampler().pending().len() as int,
                self.resampler().channels(),
                self.resampler().in_rate(),
                self.resampler().out_rate(),
            ),
    {
        self.resampler.is_usable()
    }

    /// What the resampler is to be asked.
    pub fn request(&self) -> (r: Request)
        requires
            self.resampler().can_resample(),
        ensures
            r == self.resampler().asked(),
            r == crate::speex::request_for(
                self.resampler().pending().len() as int,
                self.resampler().channels(),
                self.resampler().in_rate(),
                self.resampler().out_rate(),
            ),
    {
        self.resampler.request()
    }

    /// The samples that wait to be resampled.
    pub fn waiting(&self) -> (r: &[S])
        ensures
            r@ == self.resampler().pending(),
    {
        self.resampler.waiting()
    }

    /// Takes in the resampler's answer, and gives the frames that it made.
    pub fn resampled(&mut self, reply: Reply<S>) -> (r: Result<Vec<Frame<S>>, SpeexError>)
        requires
            old(self).wf(),
            old(self).resampler().can_resample(),
            reply.answers(old(self).resampler().asked()),
        ensures
            final(self).wf(),
            final(self).stereo() == old(self).stereo(),
            final(self).resampler().in_rate() == old(self).resampler().in_rate(),
            r is Ok <==> reply.error == crate::speex::RESAMPLER_ERR_SUCCESS,
            r is Ok ==> {
                let channels = device_channels(old(self).stereo());
                &&& final(self).resampler().pending() == old(self).resampler().pending().skip(
                    channels * reply.in_len,
                )
                &&& r->Ok_0@ == crate::frame::framed(
                    reply.buffer@.take(channels * reply.out_len),
                    old(self).stereo(),
                )
                &&& r->Ok_0@.len() == reply.out_len
            },
            r is Ok && old(self).stereo() ==> {
                &&& final(self).resampler().pending() == old(self).resampler().pending().skip(
                    2 * reply.in_len,
                )
                &&& forall|i: int|
                    0 <= i < reply.out_len ==> (#[trigger] r->Ok_0@[i]).left == reply.buffer@[2 * i]
                        && r->Ok_0@[i].right == reply.buffer@[2 * i + 1]
            },
            r is Ok && !old(self).stereo() ==> {
                &&& final(self).resampler().pending() == old(self).resampler().pending().skip(
                    reply.in_len as int,
                )
                &&& forall|i: int|
                    0 <= i < reply.out_len ==> (#[trigger] r->Ok_0@[i]).left == reply.buffer@[i]
                        && r->Ok_0@[i].right == reply.buffer@[i]
            },
            r is Err ==> {
                &&& r->Err_0.number() == reply.error
                &&& final(self).resampler().pending() == old(self).resampler().pending()
            },
    {
        match self.resampler.resample(reply) {
            Ok(()) => {
                let samples: &[S] = self.resampler.output();
                assert(samples@.len() == device_channels(self.stereo) * reply.out_len);
                Ok(frames_from_device(samples, self.stereo))
            },
            Err(error) => Err(error),
        }
    }

    /// Takes in the resampler's answer and puts the frames that it made into the ring
    /// of the microphone, unless that is muted.
    pub fn record(
        &mut self,
        reply: Reply<S>,
        muted: bool,
        producer: &mut Producer<Frame<S>, RING_SIZE>,
        ring: &mut Ring<Frame<S>, RING_SIZE>,
    ) -> (r: Result<Recorded, SpeexError>)
        requires
            old(self).wf(),
            old(self).resampler().can_resample(),
            reply.answers(old(self).resampler().asked()),
            old(ring).wf(),
            old(producer).writes(*old(ring)),
        ensures
            final(self).wf(),
            final(self).stereo() == old(self).stereo(),
            final(self).resampler().in_rate() == old(self).resampler().in_rate(),
            final(ring).wf(),
            final(producer).writes(*final(ring)),
            final(ring).has_consumer() == old(ring).has_consumer(),
            final(ring).head_index() == old(ring).head_index(),
            r is Ok <==> reply.error == crate::speex::RESAMPLER_ERR_SUCCESS,
            r is Ok ==> final(self).resampler().pending()
                == old(self).resampler().pending().skip(
                device_channels(old(self).stereo()) * reply.in_len,
            ),
            r is Ok && muted ==> {
                &&& r->Ok_0 == Recorded::Muted
                &&& *final(ring) == *old(ring)
            },
            r is Ok && !muted ==> {
                let frames = crate::frame::framed(
                    reply.buffer@.take(device_channels(old(self).stereo()) * reply.out_len),
                    old(self).stereo(),
                );
                let room = crate::ring::room_for(old(ring)@, frames, RING_SIZE as int);
                &&& final(ring)@ == old(ring)@ + frames.take(room)
                &&& final(ring).called_since(*old(ring), room)
                &&& r->Ok_0 == Recorded::Stored { dropped: (frames.len() - room) as usize }
            },
            r is Ok && !muted ==> {
                &&& r->Ok_0 matches Recorded::Stored { dropped }
                &&& final(ring)@.len() + dropped == old(ring)@.len() + reply.out_len
                &&& dropped > 0 ==> final(ring)@.len() == RING_SIZE - 1
                &&& final(ring)@.take(old(ring)@.len() as int) == old(ring)@
                &&& forall|i: int|
                    old(ring)@.len() <= i < final(ring)@.len() ==> {
                        let at = i - old(ring)@.len();
                        if old(self).stereo() {
                            &&& (#[trigger] final(ring)@[i]).left == reply.buffer@[2 * at]
                            &&& final(ring)@[i].right == reply.buffer@[2 * at + 1]
                        } else {
                            &&& final(ring)@[i].left == reply.buffer@[at]
                            &&& final(ring)@[i].right == reply.buffer@[at]
                        }
                    }
            },
            r is Err ==> {
                &&& r->Err_0.number() == reply.error
                &&& final(self).resampler().pending() == old(self).resampler().pending()
                &&& *final(ring) == *old(ring)
            },
    {
        match self.resampled(reply) {
            Ok(frames) => {
                if muted {
                    return Ok(Recorded::Muted);
                }
                proof {
                    ring.lemma_bounded();
                }
                match producer.extend(ring, frames) {
                    Ok(()) => Ok(Recorded::Stored { dropped: 0 }),
                    Err(rest) => Ok(Recorded::Stored { dropped: rest.len() }),
                }
            },
            Err(error) => Err(error),
        }
    }
}

/// What a device plays in one place.
#[derive(Copy, PartialEq, Eq, Debug)]
pub enum Slot<S> {
    /// A sample.
    Sample(S),
    /// The value at which the device is silent.
    Equilibrium,
}

impl<S: Copy> Clone for Slot<S> {
    fn clone(&self) -> (r: Self)
        ensures
            r == *self,
    {
        *self
    }
}

/// `samples` in as many places.
pub open spec fn sounding<S>(samples: Seq<S>) -> Seq<Slot<S>> {
    samples.map_values(|sample: S| Slot::Sample(sample))
}

/// Silence in `count` places.
pub open spec fn silent<S>(count: int) -> Seq<Slot<S>> {
    Seq::new(count as nat, |i: int| Slot::Equilibrium)
}

/// What a player does next.
#[derive(Clone, Copy, PartialEq, Eq, Debug, Structural)]
pub enum PlayStep {
    /// Every place has been filled.
    Done,
    /// Have the resampler work on the samples that wait.
    Resample,
}

/// What one step of filling `len` places comes to. `slots` are the places that are filled
/// before and after it, and `held` the frames that wait before and after it.
///
/// What the resampler made goes first. Where there is more of it than there are places,
/// the rest is kept for the next time. Where there is not, and no frames wait, silence
/// fills up; otherwise frames are taken for the resampler.
pub open spec fn advanced<S: Copy, F: Fn(S, S) -> S>(
    before: Playback<S>,
    after: Playback<S>,
    slots_before: Seq<Slot<S>>,
    slots_after: Seq<Slot<S>>,
    len: usize,
    held_before: Seq<Frame<S>>,
    held_after: Seq<Frame<S>>,
    mix: F,
    step: PlayStep,
) -> bool {
    let room = len - slots_before.len();
    let count = before.playable(room);
    let played = slots_before + sounding(before.unplayed().take(count));
    &&& after.wf()
    &&& after.same_device(before)
    &&& after.resampler().samples() == before.resampler().samples()
    &&& after.unplayed() == before.unplayed().skip(count)
    &&& after.cursor() == before.cursor() + count
    &&& if count < before.unplayed().len() {
        &&& step == PlayStep::Done
        &&& slots_after == played
        &&& after.resampler() == before.resampler()
        &&& held_after == held_before
    } else if held_before.len() == 0 {
        &&& step == PlayStep::Done
        &&& slots_after == played + silent::<S>(room - count)
        &&& after.resampler() == before.resampler()
        &&& held_after == held_before
    } else {
        let taken = crate::ring::at_most(held_before, before.wanted_frames(room - count));
        &&& step == PlayStep::Resample
        &&& slots_after == played
        &&& held_after == held_before.skip(taken)
        &&& exists|samples: Seq<S>|
            {
                &&& #[trigger] crate::frame::is_played(
                    samples,
                    held_before.take(taken),
                    before.stereo(),
                    mix,
                )
                &&& after.resampler().pending() == before.resampler().pending() + samples
            }
    }
}

/// A device's places are all filled when nothing more is to be done, and each time the
/// resampler is to work fewer frames wait, so that the places are filled in the end.
pub proof fn law_filling_comes_to_an_end<S: Copy, F: Fn(S, S) -> S>(
    before: Playback<S>,
    after: Playback<S>,
    slots_before: Seq<Slot<S>>,
    slots_after: Seq<Slot<S>>,
    len: usize,
    held_before: Seq<Frame<S>>,
    held_after: Seq<Frame<S>>,
    mix: F,
    step: PlayStep,
)
    requires
        before.wf(),
        slots_before.len() <= len,
        advanced(
            before,
            after,
            slots_before,
            slots_after,
            len,
            held_before,
            held_after,
            mix,
            step,
        ),
    ensures
        slots_before.len() <= slots_after.len() <= len,
        step == PlayStep::Done ==> slots_after.len() == len,
        step == PlayStep::Resample ==> held_after.len() < held_before.len(),
{
    before.lemma_wants_some(len - slots_before.len() - before.playable(len - slots_before.len()));
}

/// What the resampler's answer comes to. What it made is played from its start; where it
/// failed, the place in its buffer stays where it was.
pub open spec fn answered<S: Copy>(
    before: Playback<S>,
    after: Playback<S>,
    reply: Reply<S>,
) -> bool {
    &&& after.wf()
    &&& after.same_device(before)
    &&& if reply.error == crate::speex::RESAMPLER_ERR_SUCCESS {
        let channels = device_channels(before.stereo());
        &&& after.resampler().pending() == before.resampler().pending().skip(
            channels * reply.in_len,
        )
        &&& after.unplayed() == reply.buffer@.take(channels * reply.out_len)
        &&& after.cursor() == 0
    } else {
        &&& after.resampler().pending() == before.resampler().pending()
        &&& after.resampler().samples() == reply.buffer@
        &&& after.cursor() == before.cursor()
    }
}

/// One step of filling a device's places, what waits and what is filled before and after
/// it, and the resampler's answer to it, where the step calls for one.
pub struct Round<S> {
    pub before: Playback<S>,
    pub after: Playback<S>,
    pub slots_before: Seq<Slot<S>>,
    pub slots_after: Seq<Slot<S>>,
    pub held_before: Seq<Frame<S>>,
    pub held_after: Seq<Frame<S>>,
    pub step: PlayStep,
    pub reply: Reply<S>,
}

/// Whether `rounds` are how a device's `len` places are filled, from the first one to the
/// last, while the resampler does not fail. Frames may come in between.
pub open spec fn is_filling<S: Copy, F: Fn(S, S) -> S>(
    rounds: Seq<Round<S>>,
    len: usize,
    mix: F,
) -> bool {
    &&& rounds.len() > 0
    &&& rounds[0].slots_before == Seq::<Slot<S>>::empty()
    &&& rounds.last().step == PlayStep::Done
    &&& forall|i: int|
        0 <= i < rounds.len() ==> {
            let round = #[trigger] rounds[i];
            advanced(
                round.before,
                round.after,
                round.slots_before,
                round.slots_after,
                len,
                round.held_before,
                round.held_after,
                mix,
                round.step,
            )
        }
    &&& forall|i: int, j: int|
        #![trigger rounds[i], rounds[j]]
        0 <= i < rounds.len() && j == i + 1 && j < rounds.len() ==> {
            &&& rounds[i].step == PlayStep::Resample
            &&& rounds[i].reply.error == crate::speex::RESAMPLER_ERR_SUCCESS
            &&& answered(rounds[i].after, rounds[j].before, rounds[i].reply)
            &&& rounds[j].slots_before == rounds[i].slots_after
        }
}

/// The samples that the resampler made in the first `count` of `rounds`.
pub open spec fn made<S: Copy>(rounds: Seq<Round<S>>, count: int) -> Seq<S>
    decreases count,
{
    if count <= 0 {
        Seq::empty()
    } else {
        let round = rounds[count - 1];
        made(rounds, count - 1) + round.reply.buffer@.take(
            device_channels(round.after.stereo()) * round.reply.out_len,
        )
    }
}

/// The places that are filled with `samples` from `from` up to `to`.
pub open spec fn sounding_part<S>(samples: Seq<S>, from: int, to: int) -> Seq<Slot<S>> {
    sounding(samples.subrange(from, to))
}

proof fn lemma_round<S: Copy, F: Fn(S, S) -> S>(
    rounds: Seq<Round<S>>,
    len: usize,
    mix: F,
    earlier: Seq<S>,
    played: int,
    last: int,
) -> (count: int)
    requires
        is_filling(rounds, len, mix),
        rounds[0].before.stands_at(earlier, played),
        0 <= last < rounds.len(),
    ensures
        0 <= count,
        ({
            let all = earlier + made(rounds, last);
            let round = rounds[last];
            &&& round.after.stands_at(all, played + count)
            &&& if round.step == PlayStep::Resample {
                &&& count <= len
                &&& played + count == all.len()
                &&& round.slots_after == sounding_part(all, played, played + count)
            } else {
                &&& count <= len
                &&& round.slots_after == sounding_part(all, played, played + count) + silent::<S>(
                    len - count,
                )
                &&& count < len ==> {
                    &&& round.held_before.len() == 0
                    &&& played + count == all.len()
                }
            }
        }),
    decreases last,
{
    let round = rounds[last];
    let all = earlier + made(rounds, last);
    let start = if last == 0 {
        assert(all =~= earlier);
        assert(round.slots_before =~= sounding_part(all, played, played));
        0
    } else {
        let start = lemma_round(rounds, len, mix, earlier, played, last - 1);
        let past = rounds[last - 1];
        let before = earlier + made(rounds, last - 1);
        let out = past.reply.buffer@.take(
            device_channels(past.after.stereo()) * past.reply.out_len,
        );
        assert(past.step == PlayStep::Resample);
        assert(all =~= before + out);
        assert(round.before.unplayed() =~= all.skip(played + start));
        assert(round.slots_before =~= sounding_part(all, played, played + start));
        start
    };
    let room = len - round.slots_before.len();
    assert(round.slots_before.len() == start);
    let count = round.before.playable(room);
    assert(round.after.unplayed() =~= all.skip(played + start + count));
    assert(round.slots_before + sounding(round.before.unplayed().take(count)) =~= sounding_part(
        all,
        played,
        played + start + count,
    ));
    if round.step == PlayStep::Done && count < round.before.unplayed().len() {
        assert(count == room);
        assert(round.slots_after =~= round.slots_after + silent::<S>(0));
    }
    start + count
}

/// Whether `rounds` play `count` samples, those that follow the first `played` of all that
/// the resampler has ever made: `earlier` before the rounds, and more in them. Silence
/// comes behind them, and only where all have been played and no frames wait.
pub open spec fn plays_on<S: Copy>(
    rounds: Seq<Round<S>>,
    len: usize,
    earlier: Seq<S>,
    played: int,
    count: int,
) -> bool {
    let all = earlier + made(rounds, rounds.len() - 1);
    &&& 0 <= count <= len
    &&& rounds.last().slots_after == sounding_part(all, played, played + count) + silent::<S>(
        len - count,
    )
    &&& rounds.last().after.stands_at(all, played + count)
    &&& count < len ==> {
        &&& rounds.last().held_before.len() == 0
        &&& played + count == all.len()
    }
}

/// Each time a device's places are filled, the samples are played that follow those which
/// were played before, in order, and the next time goes on behind them: none is left out,
/// and none is played twice. Silence comes only where nothing is left to play.
pub proof fn law_no_sample_is_skipped_or_repeated<S: Copy, F: Fn(S, S) -> S>(
    rounds: Seq<Round<S>>,
    len: usize,
    mix: F,
    earlier: Seq<S>,
    played: int,
)
    requires
        is_filling(rounds, len, mix),
        rounds[0].before.stands_at(earlier, played),
    ensures
        exists|count: int| plays_on(rounds, len, earlier, played, count),
{
    let count = lemma_round(rounds, len, mix, earlier, played, rounds.len() - 1);
    assert(plays_on(rounds, len, earlier, played, count));
}

/// Frames on their way from a ring to a speaker.
pub struct Playback<S> {
    stereo: bool,
    sample_rate: u32,
    resampler: Resampler<S>,
    cursor: usize,
}

impl<S: Copy> Playback<S> {
    /// The resampler has the channels and the rate of the device, which is not zero,
    /// and takes the rate of the stream.
    pub open spec fn wf(&self) -> bool {
        &&& self.sample_rate() > 0
        &&& self.resampler().channels() == device_channels(self.stereo())
        &&& self.resampler().in_rate() == SAMPLE_RATE
        &&& self.resampler().out_rate() == self.sample_rate()
    }

    /// Whether the device has two channels, or one.
    pub closed spec fn stereo(&self) -> bool {
        self.stereo
    }

    /// The rate of the device.
    pub closed spec fn sample_rate(&self) -> u32 {
        self.sample_rate
    }

    /// The samples and the rates of the resampler.
    pub closed spec fn resampler(&self) -> Resampler<S> {
        self.resampler
    }

    /// How many of the resampled samples have been played.
    pub closed spec fn cursor(&self) -> int {
        self.cursor as int
    }

    /// The resampled samples that have not been played yet.
    pub open spec fn unplayed(&self) -> Seq<S> {
        let samples = self.resampler().samples();
        if self.cursor() < samples.len() {
            samples.skip(self.cursor())
        } else {
            Seq::empty()
        }
    }

    /// Whether the first `played` of `made`, which are all samples that the resampler has
    /// ever made, have been played, and the others have not.
    pub open spec fn stands_at(&self, made: Seq<S>, played: int) -> bool {
        &&& 0 <= played <= made.len()
        &&& self.unplayed() == made.skip(played)
    }

    /// How many of the unplayed samples go into `room` places.
    pub open spec fn playable(&self, room: int) -> int {
        crate::ring::at_most(self.unplayed(), room)
    }

    /// How many frames are asked of the ring when `room` places are left: as many as
    /// should fill them, and some more.
    pub open spec fn wanted_frames(&self, room: int) -> int {
        room * SAMPLE_RATE / (self.sample_rate() as int) / (device_channels(self.stereo()) as int)
            + 32
    }

    /// Whether everything but the samples is as in `other`.
    pub open spec fn same_device(&self, other: Self) -> bool {
        &&& self.stereo() == other.stereo()
        &&& self.sample_rate() == other.sample_rate()
    }

    proof fn lemma_wants_some(&self, room: int)
        requires
            self.wf(),
            0 <= room,
        ensures
            self.wanted_frames(room) >= 32,
    {
        let product = room * SAMPLE_RATE;
        let share = product / (self.sample_rate as int);
        assert(0 <= share) by (nonlinear_arith)
            requires
                0 <= product,
                0 < self.sample_rate,
                share == product / (self.sample_rate as int),
        ;
    }

    /// Starts with nothing, for a device with a rate of `sample_rate`, unless the
    /// resampler could not be made.
    pub fn new(stereo: bool, sample_rate: u32, error: i32) -> (r: Result<Self, SpeexError>)
        requires
            error == crate::speex::RESAMPLER_ERR_SUCCESS ==> sample_rate > 0,
        ensures
            r is Ok <==> error == crate::speex::RESAMPLER_ERR_SUCCESS,
            r is Ok ==> {
                &&& r->Ok_0.wf()
                &&& r->Ok_0.stereo() == stereo
                &&& r->Ok_0.sample_rate() == sample_rate
                &&& r->Ok_0.resampler().pending() == Seq::<S>::empty()
                &&& r->Ok_0.resampler().samples() == Seq::<S>::empty()
                &&& r->Ok_0.cursor() == 0
                &&& r->Ok_0.stands_at(Seq::<S>::empty(), 0)
            },
            r is Err ==> r->Err_0.number() == error,
    {
        let channels: u32 = if stereo {
            2
        } else {
            1
        };
        match Resampler::new(channels, SAMPLE_RATE, sample_rate, error) {
            Ok(resampler) => {
                let r = Playback { stereo, sample_rate, resampler, cursor: 0 };
                assert(r.unplayed() =~= Seq::<S>::empty().skip(0));
                Ok(r)
            },
            Err(error) => Err(error),
        }
    }

    /// Plays what the resampler made, as much as goes into the places up to `len`, and
    /// tells whether some of it is left.
    pub fn emit(&mut self, slots: &mut Vec<Slot<S>>, len: usize) -> (r: bool)
        requires
            old(self).wf(),
            old(slots)@.len() <= len,
        ensures
            final(self).wf(),
            final(self).same_device(*old(self)),
            final(self).resampler() == old(self).resampler(),
            ({
                let room = len - old(slots)@.len();
                let count = old(self).playable(room);
                &&& final(slots)@ == old(slots)@ + sounding(old(self).unplayed().take(count))
                &&& final(self).unplayed() == old(self).unplayed().skip(count)
                &&& final(self).cursor() == old(self).cursor() + count
                &&& r == (count < old(self).unplayed().len())
            }),
            final(slots)@.take(old(slots)@.len() as int) == old(slots)@,
            final(slots)@.len() == len || !r,
            final(slots)@.len() <= len,
            final(slots)@.len() + final(self).unplayed().len() == old(slots)@.len()
                + old(self).unplayed().len(),
            forall|i: int|
                old(slots)@.len() <= i < final(slots)@.len() ==> #[trigger] final(slots)@[i]
                    == Slot::Sample(old(self).unplayed()[i - old(slots)@.len()]),
    {
        let ghost unplayed = self.unplayed();
        let ghost start = self.cursor as int;
        let ghost before = slots@;
        let ghost samples = self.resampler.samples();
        assert(before + sounding(unplayed.take(0)) =~= before);
        assert(unplayed.skip(0) =~= unplayed);
        while self.cursor < self.resampler.output().len()
            invariant
                self.wf(),
                self.same_device(*old(self)),
                self.resampler == old(self).resampler,
                samples == self.resampler.samples(),
                unplayed == old(self).unplayed(),
                before == old(slots)@,
                start == old(self).cursor,
                start <= self.cursor,
                self.cursor - start <= unplayed.len(),
                before.len() + (self.cursor - start) <= len,
                slots@ == before + sounding(unplayed.take(self.cursor - start)),
                self.unplayed() == unplayed.skip(self.cursor - start),
            decreases samples.len() - self.cursor,
        {
            if slots.len() >= len {
                return true;
            }
            let sample: S = self.resampler.output()[self.cursor];
            let ghost played = self.cursor - start;
            slots.push(Slot::Sample(sample));
            self.cursor += 1;
            assert(slots@ =~= before + sounding(unplayed.take(played + 1)));
            assert(self.unplayed() =~= unplayed.skip(played + 1));
        }
        false
    }

    /// Fills the places up to `len` with silence.
    pub fn silence(slots: &mut Vec<Slot<S>>, len: usize)
        requires
            old(slots)@.len() <= len,
        ensures
            final(slots)@ == old(slots)@ + silent::<S>(len - old(slots)@.len()),
            final(slots)@.len() == len,
            final(slots)@.take(old(slots)@.len() as int) == old(slots)@,
            forall|i: int|
                old(slots)@.len() <= i < len ==> #[trigger] final(slots)@[i]
                    == Slot::<S>::Equilibrium,
    {
        let ghost before = slots@;
        assert(before + silent::<S>(0) =~= before);
        while slots.len() < len
            invariant
                before == old(slots)@,
                before.len() <= slots@.len() <= len,
                slots@ == before + silent::<S>(slots@.len() - before.len()),
            decreases len - slots@.len(),
        {
            let ghost filled = slots@.len() - before.len();
            slots.push(Slot::Equilibrium);
            assert(slots@ =~= before + silent::<S>(filled + 1));
        }
    }

    /// What a device with `len` places plays when the user does not want to hear
    /// anything: silence. Otherwise this decides nothing.
    pub fn deafened(on: bool, len: usize) -> (r: Option<Vec<Slot<S>>>)
        ensures
            r is Some <==> on,
            r is Some ==> r->0@ == silent::<S>(len as int),
            r is Some ==> r->0@.len() == len && forall|i: int|
                0 <= i < len ==> #[trigger] r->0@[i] == Slot::<S>::Equilibrium,
    {
        if on {
            let mut slots: Vec<Slot<S>> = Vec::new();
            Self::silence(&mut slots, len);
            assert(slots@ =~= silent::<S>(len as int));
            Some(slots)
        } else {
            None
        }
    }

    /// How many frames are to be asked of the ring when `room` places are left.
    pub fn wanted(&self, room: usize) -> (r: usize)
        requires
            self.wf(),
            room * SAMPLE_RATE <= usize::MAX - 32,
        ensures
            r == self.wanted_frames(room as int),
            r >= 32,
            ({
                let channels: int = if self.stereo() {
                    2
                } else {
                    1
                };
                let rate = channels * self.sample_rate();
                (r - 32) * rate <= room * 48000 < (r - 31) * rate
            }),
    {
        let channels: usize = if self.stereo {
            2
        } else {
            1
        };
        proof {
            let product = room * SAMPLE_RATE;
            let share = product / (self.sample_rate as int);
            assert(0 <= share <= product) by (nonlinear_arith)
                requires
                    0 <= product,
                    0 < self.sample_rate,
                    share == product / (self.sample_rate as int),
            ;
        }
        proof {
            law_frames_are_asked_for_by_the_room(*self, room as int);
        }
        room * SAMPLE_RATE as usize / self.sample_rate as usize / channels + 32
    }

    /// Takes in frames to be resampled. `mix` makes one sample of both ears.
    pub fn feed<F: Fn(S, S) -> S>(&mut self, frames: &Vec<Frame<S>>, mix: &F)
        requires
            old(self).wf(),
            forall|a: S, b: S| call_requires(*mix, (a, b)),
        ensures
            final(self).wf(),
            final(self).same_device(*old(self)),
            final(self).cursor() == old(self).cursor(),
            final(self).resampler().samples() == old(self).resampler().samples(),
            exists|samples: Seq<S>|
                {
                    &&& #[trigger] crate::frame::is_played(
                        samples,
                        frames@,
                        old(self).stereo(),
                        *mix,
                    )
                    &&& final(self).resampler().pending() == old(self).resampler().pending()
                        + samples
                },
    {
        let mut samples: Vec<S> = samples_for_device(frames, self.stereo, mix);
        assert(crate::frame::is_played(samples@, frames@, self.stereo, *mix));
        self.resampler.input().append(&mut samples);
    }

    /// Fills the places up to `len`: with what the resampler made, then, as long as the
    /// ring of the speaker holds frames, with what it is to make of those, and then with
    /// silence.
    pub fn advance<F: Fn(S, S) -> S>(
        &mut self,
        slots: &mut Vec<Slot<S>>,
        len: usize,
        consumer: &mut Consumer<Frame<S>, RING_SIZE>,
        ring: &mut Ring<Frame<S>, RING_SIZE>,
        mix: &F,
    ) -> (r: PlayStep)
        requires
            old(self).wf(),
            old(slots)@.len() <= len,
            len * SAMPLE_RATE <= usize::MAX - 32,
            old(ring).wf(),
            old(consumer).reads(*old(ring)),
            forall|a: S, b: S| call_requires(*mix, (a, b)),
        ensures
            final(ring).wf(),
            final(consumer).reads(*final(ring)),
            final(ring).same_calls(*old(ring)),
            final(ring).has_producer() == old(ring).has_producer(),
            final(ring).tail_index() == old(ring).tail_index(),
            advanced(
                *old(self),
                *final(self),
                old(slots)@,
                final(slots)@,
                len,
                old(ring)@,
                final(ring)@,
                *mix,
                r,
            ),
    {
        if self.emit(slots, len) {
            return PlayStep::Done;
        }
        if consumer.is_empty(ring) {
            Self::silence(slots, len);
            return PlayStep::Done;
        }
        let ghost emitted = *self;
        let wanted: usize = self.wanted(len - slots.len());
        let frames: Vec<Frame<S>> = consumer.take(ring, wanted);
        self.feed(&frames, mix);
        proof {
            let before = *old(self);
            let count = before.playable(len - old(slots)@.len());
            assert(self.unplayed() == emitted.unplayed());
            assert(emitted.resampler() == before.resampler());
            assert(slots@.len() == old(slots)@.len() + count);
            assert(wanted == before.wanted_frames(len - old(slots)@.len() - count));
            assert(frames@ == old(ring)@.take(crate::ring::at_most(old(ring)@, wanted as int)));
        }
        PlayStep::Resample
    }

    /// Whether the resampler can be asked.
    pub fn is_usable(&self) -> (r: bool)
        ensures
            r == self.resampler().can_resample(),
            r == crate::speex::can_ask(
                self.resampler().pending().len() as int,
                self.resampler().channels(),
                self.resampler().in_rate(),
                self.resampler().out_rate(),
            ),
    {
        self.resampler.is_usable()
    }

    /// What the resampler is to be asked.
    pub fn request(&self) -> (r: Request)
        requires
            self.resampler().can_resample(),
        ensures
            r == self.resampler().asked(),
            r == crate::speex::request_for(
                self.resampler().pending().len() as int,
                self.resampler().channels(),
                self.resampler().in_rate(),
                self.resampler().out_rate(),
            ),
    {
        self.resampler.request()
    }

    /// The samples that wait to be resampled.
    pub fn waiting(&self) -> (r: &[S])
        ensures
            r@ == self.resampler().pending(),
    {
        self.resampler.waiting()
    }

    /// Takes in the resampler's answer; see `answered`.
    pub fn resampled(&mut self, reply: Reply<S>) -> (r: Result<(), SpeexError>)
        requires
            old(self).wf(),
            old(self).resampler().can_resample(),
            reply.answers(old(self).resampler().asked()),
        ensures
            answered(*old(self), *final(self), reply),
            final(self).stereo() == old(self).stereo(),
            final(self).sample_rate() == old(self).sample_rate(),
            r is Ok && old(self).stereo() ==> {
                &&& final(self).resampler().pending() == old(self).resampler().pending().skip(
                    2 * reply.in_len,
                )
                &&& final(self).unplayed() == reply.buffer@.take(2 * reply.out_len)
            },
            r is Ok && !old(self).stereo() ==> {
                &&& final(self).resampler().pending() == old(self).resampler().pending().skip(
                    reply.in_len as int,
                )
                &&& final(self).unplayed() == reply.buffer@.take(reply.out_len as int)
            },
            r is Err ==> {
                &&& final(self).resampler().pending() == old(self).resampler().pending()
                &&& final(self).resampler().samples() == reply.buffer@
                &&& final(self).cursor() == old(self).cursor()
            },
            r is Ok <==> reply.error == crate::speex::RESAMPLER_ERR_SUCCESS,
            r is Err ==> r->Err_0.number() == reply.error,
    {
        match self.resampler.resample(reply) {
            Ok(()) => {
                self.cursor = 0;
                assert(self.unplayed() =~= self.resampler.samples());
                Ok(())
            },
            Err(error) => Err(error),
        }
    }
}

/// A device has two samples for one point in time where it is a stereo device, and one
/// where it is not.
pub proof fn law_a_stereo_device_has_two_channels(stereo: bool)
    ensures
        device_channels(stereo) == 2 <==> stereo,
        device_channels(stereo) == 1 <==> !stereo,
{
}

/// Each sample sounds in a place of its own, and pieces sound one behind the other.
pub proof fn law_each_sample_has_its_place<S>(first: Seq<S>, second: Seq<S>, i: int)
    ensures
        sounding(first).len() == first.len(),
        0 <= i < first.len() ==> sounding(first)[i] == Slot::Sample(first[i]),
        sounding(first + second) == sounding(first) + sounding(second),
{
    assert(sounding(first + second) =~= sounding(first) + sounding(second));
}

/// Silence is silent in every place.
pub proof fn law_silence_is_silent<S>(count: int, i: int)
    requires
        0 <= count,
    ensures
        silent::<S>(count).len() == count,
        0 <= i < count ==> silent::<S>(count)[i] == Slot::<S>::Equilibrium,
{
}

/// As many samples are played as there are places, or as there are samples, whichever are
/// fewer.
pub proof fn law_places_are_filled_while_there_are_samples<S: Copy>(
    playback: Playback<S>,
    room: int,
)
    requires
        0 <= room,
    ensures
        0 <= playback.playable(room) <= room,
        playback.playable(room) <= playback.unplayed().len(),
        playback.playable(room) == room || playback.playable(room) == playback.unplayed().len(),
{
}

/// But for 32 more, as many frames are asked for as last as long as the places that are left,
/// at the rate of the stream and with the channels of the device.
pub proof fn law_frames_are_asked_for_by_the_room<S: Copy>(playback: Playback<S>, room: int)
    requires
        playback.wf(),
        0 <= room,
    ensures
        ({
            let frames = playback.wanted_frames(room) - 32;
            let rate = device_channels(playback.stereo()) * playback.sample_rate();
            &&& 0 <= frames
            &&& frames * rate <= room * 48000 < (frames + 1) * rate
        }),
{
    let product = room * SAMPLE_RATE;
    let rate = playback.sample_rate() as int;
    let channels = device_channels(playback.stereo()) as int;
    let share = product / rate;
    let frames = share / channels;
    assert(0 <= share && share * rate <= product < (share + 1) * rate) by (nonlinear_arith)
        requires
            0 <= product,
            0 < rate,
            share == product / rate,
    ;
    assert(channels * frames <= share < channels * (frames + 1));
    assert(frames * (channels * rate) <= share * rate) by (nonlinear_arith)
        requires
            channels * frames <= share,
            0 < rate,
    ;
    assert((share + 1) * rate <= (frames + 1) * (channels * rate)) by (nonlinear_arith)
        requires
            share + 1 <= channels * (frames + 1),
            0 < rate,
    ;
}

/// A step of filling a device's places keeps what is filled. It plays the samples that wait,
/// each in its place, and where it is the last one, silence behind them; silence comes only
/// where no frames wait.
pub proof fn law_a_step_plays_what_waits<S: Copy, F: Fn(S, S) -> S>(
    before: Playback<S>,
    after: Playback<S>,
    slots_before: Seq<Slot<S>>,
    slots_after: Seq<Slot<S>>,
    len: usize,
    held_before: Seq<Frame<S>>,
    held_after: Seq<Frame<S>>,
    mix: F,
    step: PlayStep,
)
    requires
        before.wf(),
        slots_before.len() <= len,
        advanced(
            before,
            after,
            slots_before,
            slots_after,
            len,
            held_before,
            held_after,
            mix,
            step,
        ),
    ensures
        slots_after.len() >= slots_before.len(),
        slots_after.take(slots_before.len() as int) == slots_before,
        forall|i: int|
            slots_before.len() <= i < slots_after.len() ==> {
                let at = i - slots_before.len();
                #[trigger] slots_after[i] == if at < before.unplayed().len() {
                    Slot::Sample(before.unplayed()[at])
                } else {
                    Slot::<S>::Equilibrium
                }
            },
        step == PlayStep::Done ==> {
            &&& slots_after.len() == len
            &&& slots_before.len() + before.unplayed().len() < len ==> held_before.len() == 0
            &&& after.resampler().pending() == before.resampler().pending()
            &&& held_after == held_before
        },
        step == PlayStep::Resample ==> {
            &&& held_before.len() > 0
            &&& slots_after.len() == slots_before.len() + before.unplayed().len()
            &&& after.unplayed().len() == 0
        },
        after.unplayed() == before.unplayed().skip(
            if slots_after.len() - slots_before.len() <= before.unplayed().len() {
                slots_after.len() - slots_before.len()
            } else {
                before.unplayed().len() as int
            },
        ),
        after.stereo() == before.stereo(),
        after.sample_rate() == before.sample_rate(),
{
    let room = len - slots_before.len();
    let count = before.playable(room);
    assert(slots_after.take(slots_before.len() as int) =~= slots_before);
    if step == PlayStep::Resample {
        assert(after.unplayed().len() == 0);
    }
}

/// The frames that a step takes for the resampler are the oldest ones, those that it leaves
/// are the others, and what the resampler is given follows what it was given before: what the
/// device plays of the frames that were taken. Fewer are taken than are asked for only where
/// no more are there.
pub proof fn law_a_step_loses_no_frames<S: Copy, F: Fn(S, S) -> S>(
    before: Playback<S>,
    after: Playback<S>,
    slots_before: Seq<Slot<S>>,
    slots_after: Seq<Slot<S>>,
    len: usize,
    held_before: Seq<Frame<S>>,
    held_after: Seq<Frame<S>>,
    mix: F,
) -> (r: (Seq<Frame<S>>, Seq<S>))
    requires
        before.wf(),
        slots_before.len() <= len,
        advanced(
            before,
            after,
            slots_before,
            slots_after,
            len,
            held_before,
            held_after,
            mix,
            PlayStep::Resample,
        ),
    ensures
        r.0.len() > 0,
        r.0 + held_after == held_before,
        r.0.len() == before.wanted_frames(len - slots_after.len()) || (held_after.len() == 0
            && r.0.len() < before.wanted_frames(len - slots_after.len())),
        after.resampler().pending() == before.resampler().pending() + r.1,
        before.stereo() ==> {
            &&& r.1.len() == 2 * r.0.len()
            &&& forall|i: int|
                0 <= i < r.0.len() ==> r.1[2 * i] == (#[trigger] r.0[i]).left && r.1[2 * i + 1]
                    == r.0[i].right
        },
        !before.stereo() ==> {
            &&& r.1.len() == r.0.len()
            &&& forall|i: int|
                0 <= i < r.0.len() ==> call_ensures(mix, (r.0[i].left, r.0[i].right), #[trigger] r.1[i])
        },
{
    let room = len - slots_before.len();
    let count = before.playable(room);
    before.lemma_wants_some(room - count);
    let taken = crate::ring::at_most(held_before, before.wanted_frames(room - count));
    let frames = held_before.take(taken);
    let samples = choose|samples: Seq<S>|
        {
            &&& #[trigger] crate::frame::is_played(samples, frames, before.stereo(), mix)
            &&& after.resampler().pending() == before.resampler().pending() + samples
        };
    assert(frames + held_after =~= held_before);
    crate::frame::law_stereo_plays_the_frames(samples, frames, mix);
    (frames, samples)
}

/// What the resampler made is played from its start, all of it; what it has read is not given
/// to it again, and what it has not read stays.
pub proof fn law_an_answer_is_played_from_its_start<S: Copy>(
    before: Playback<S>,
    after: Playback<S>,
    reply: Reply<S>,
)
    requires
        answered(before, after, reply),
        reply.error == crate::speex::RESAMPLER_ERR_SUCCESS,
    ensures
        before.stereo() ==> {
            &&& after.unplayed() == reply.buffer@.take(2 * reply.out_len)
            &&& after.resampler().pending() == before.resampler().pending().skip(2 * reply.in_len)
        },
        !before.stereo() ==> {
            &&& after.unplayed() == reply.buffer@.take(reply.out_len as int)
            &&& after.resampler().pending() == before.resampler().pending().skip(
                reply.in_len as int,
            )
        },
        after.stereo() == before.stereo(),
        after.sample_rate() == before.sample_rate(),
{
}

/// Where the resampler failed, nothing is taken from what waits for it, and playing goes on at
/// the place where it stood.
pub proof fn law_a_failure_moves_nothing<S: Copy>(
    before: Playback<S>,
    after: Playback<S>,
    reply: Reply<S>,
)
    requires
        answered(before, after, reply),
        reply.error != crate::speex::RESAMPLER_ERR_SUCCESS,
    ensures
        after.resampler().pending() == before.resampler().pending(),
        after.resampler().samples() == reply.buffer@,
        after.cursor() == before.cursor(),
        after.stereo() == before.stereo(),
        after.sample_rate() == before.sample_rate(),
{
}

} // verus!
