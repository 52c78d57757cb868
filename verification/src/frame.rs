//! Stereo frames and the interleaved samples that carry them.
use vstd::prelude::*;

verus! {

/// One sample for each ear.
#[derive(Copy, Debug, PartialEq, Eq)]
pub struct Frame<S> {
    pub left: S,
    pub right: S,
}

impl<S: Copy> Clone for Frame<S> {
    fn clone(&self) -> (r: Self)
        ensures
            r == *self,
    {
        *self
    }
}

/// The frames that `samples` holds, left before right. A last sample without a
/// partner belongs to no frame.
pub open spec fn paired<S>(samples: Seq<S>) -> Seq<Frame<S>> {
    Seq::new(
        samples.len() / 2,
        |i: int| Frame { left: samples[2 * i], right: samples[2 * i + 1] },
    )
}

/// The samples of `frames` in turn, left before right.
pub open spec fn interleaved<S>(frames: Seq<Frame<S>>) -> Seq<S> {
    Seq::new(
        2 * frames.len(),
        |i: int|
            if i % 2 == 0 {
                frames[i / 2].left
            } else {
                frames[i / 2].right
            },
    )
}

/// Every sample on both ears.
pub open spec fn doubled<S>(samples: Seq<S>) -> Seq<Frame<S>> {
    Seq::new(samples.len(), |i: int| Frame { left: samples[i], right: samples[i] })
}

/// The frames of a stereo device's samples, or those of a mono device's.
pub open spec fn framed<S>(samples: Seq<S>, stereo: bool) -> Seq<Frame<S>> {
    if stereo {
        paired(samples)
    } else {
        doubled(samples)
    }
}

/// Whether `samples` is what a device plays of `frames`: all samples in turn for
/// a stereo device, and what `mix` makes of both ears for a mono device.
pub open spec fn is_played<S, F: Fn(S, S) -> S>(
    samples: Seq<S>,
    frames: Seq<Frame<S>>,
    stereo: bool,
    mix: F,
) -> bool {
    if stereo {
        samples == interleaved(frames)
    } else {
        &&& samples.len() == frames.len()
        &&& forall|i: int|
            0 <= i < frames.len() ==> call_ensures(
                mix,
                (frames[i].left, frames[i].right),
                #[trigger] samples[i],
            )
    }
}

/// Pairs samples up. A last sample without a partner is left out.
pub fn pair<S: Copy>(samples: &[S]) -> (r: Vec<Frame<S>>)
    ensures
        r@ == paired(samples@),
        r@.len() == samples@.len() / 2,
        forall|i: int|
            0 <= i < r@.len() ==> (#[trigger] r@[i]).left == samples@[2 * i] && r@[i].right
                == samples@[2 * i + 1],
{
    let mut r: Vec<Frame<S>> = Vec::new();
    let len: usize = samples.len();
    let count: usize = len / 2;
    let mut i: usize = 0;
    while i < count
        invariant
            i <= count,
            len == samples@.len(),
            count == len / 2,
            r@ == paired(samples@).take(i as int),
        decreases count - i,
    {
        r.push(Frame { left: samples[2 * i], right: samples[2 * i + 1] });
        i += 1;
        assert(r@ =~= paired(samples@).take(i as int));
    }
    assert(r@ =~= paired(samples@));
    r
}

/// Puts the samples of `frames` in turn.
pub fn interleave<S: Copy>(frames: &Vec<Frame<S>>) -> (r: Vec<S>)
    ensures
        r@ == interleaved(frames@),
        r@.len() == 2 * frames@.len(),
        forall|i: int|
            0 <= i < frames@.len() ==> r@[2 * i] == (#[trigger] frames@[i]).left && r@[2 * i + 1]
                == frames@[i].right,
{
    let mut r: Vec<S> = Vec::new();
    let mut i: usize = 0;
    while i < frames.len()
        invariant
            i <= frames@.len(),
            r@ == interleaved(frames@.take(i as int)),
        decreases frames@.len() - i,
    {
        let frame: Frame<S> = frames[i];
        r.push(frame.left);
        r.push(frame.right);
        i += 1;
        assert(r@ =~= interleaved(frames@.take(i as int)));
    }
    assert(frames@.take(i as int) =~= frames@);
    r
}

/// Puts every sample on both ears.
pub fn double<S: Copy>(samples: &[S]) -> (r: Vec<Frame<S>>)
    ensures
        r@ == doubled(samples@),
        r@.len() == samples@.len(),
        forall|i: int|
            0 <= i < r@.len() ==> (#[trigger] r@[i]).left == samples@[i] && r@[i].right
                == samples@[i],
{
    let mut r: Vec<Frame<S>> = Vec::new();
    let mut i: usize = 0;
    while i < samples.len()
        invariant
            i <= samples@.len(),
            r@ == doubled(samples@).take(i as int),
        decreases samples@.len() - i,
    {
        r.push(Frame { left: samples[i], right: samples[i] });
        i += 1;
        assert(r@ =~= doubled(samples@).take(i as int));
    }
    assert(r@ =~= doubled(samples@));
    r
}

/// The frames that a device recorded. A stereo device records whole frames; see
/// `pair` for a last sample without a partner.
pub fn frames_from_device<S: Copy>(samples: &[S], stereo: bool) -> (r: Vec<Frame<S>>)
    ensures
        r@ == framed(samples@, stereo),
        stereo ==> {
            &&& r@.len() == samples@.len() / 2
            &&& forall|i: int|
                0 <= i < r@.len() ==> (#[trigger] r@[i]).left == samples@[2 * i] && r@[i].right
                    == samples@[2 * i + 1]
        },
        !stereo ==> {
            &&& r@.len() == samples@.len()
            &&& forall|i: int|
                0 <= i < r@.len() ==> (#[trigger] r@[i]).left == samples@[i] && r@[i].right
                    == samples@[i]
        },
{
    if stereo {
        pair(samples)
    } else {
        double(samples)
    }
}

/// The samples that a device plays. `mix` makes one sample of both ears.
pub fn samples_for_device<S: Copy, F: Fn(S, S) -> S>(
    frames: &Vec<Frame<S>>,
    stereo: bool,
    mix: &F,
) -> (r: Vec<S>)
    requires
        forall|a: S, b: S| call_requires(*mix, (a, b)),
    ensures
        is_played(r@, frames@, stereo, *mix),
        stereo ==> {
            &&& r@.len() == 2 * frames@.len()
            &&& forall|i: int|
                0 <= i < frames@.len() ==> r@[2 * i] == (#[trigger] frames@[i]).left && r@[2 * i
                    + 1] == frames@[i].right
        },
        !stereo ==> {
            &&& r@.len() == frames@.len()
            &&& forall|i: int|
                0 <= i < frames@.len() ==> call_ensures(
                    *mix,
                    (frames@[i].left, frames@[i].right),
                    #[trigger] r@[i],
                )
        },
{
    if stereo {
        return interleave(frames);
    }
    let mut r: Vec<S> = Vec::new();
    let mut i: usize = 0;
    while i < frames.len()
        invariant
            i <= frames@.len(),
            r@.len() == i,
            forall|a: S, b: S| call_requires(*mix, (a, b)),
            forall|j: int|
                0 <= j < i ==> call_ensures(
                    *mix,
                    (frames@[j].left, frames@[j].right),
                    #[trigger] r@[j],
                ),
        decreases frames@.len() - i,
    {
        let frame: Frame<S> = frames[i];
        let sample = mix(frame.left, frame.right);
        r.push(sample);
        i += 1;
    }
    r
}

/// Pairing undoes interleaving.
pub proof fn law_pairing_undoes_interleaving<S>(frames: Seq<Frame<S>>)
    ensures
        paired(interleaved(frames)) == frames,
{
    assert(paired(interleaved(frames)) =~= frames);
}

/// Interleaving undoes pairing, where no sample lacks a partner.
pub proof fn law_interleaving_undoes_pairing<S>(samples: Seq<S>)
    requires
        samples.len() % 2 == 0,
    ensures
        interleaved(paired(samples)) == samples,
{
    assert(interleaved(paired(samples)) =~= samples);
}

/// Frames that are put in turn piece by piece are put in turn as a whole.
pub proof fn law_interleaving_joins<S>(first: Seq<Frame<S>>, second: Seq<Frame<S>>)
    ensures
        interleaved(first + second) == interleaved(first) + interleaved(second),
{
    assert(interleaved(first + second) =~= interleaved(first) + interleaved(second));
}

/// A single frame is put in turn as its left sample and its right one.
pub proof fn law_one_frame_in_turn<S>(frame: Frame<S>)
    ensures
        interleaved(seq![frame]) == seq![frame.left, frame.right],
        interleaved(Seq::<Frame<S>>::empty()) == Seq::<S>::empty(),
{
    assert(interleaved(seq![frame]) =~= seq![frame.left, frame.right]);
    assert(interleaved(Seq::<Frame<S>>::empty()) =~= Seq::<S>::empty());
}

/// Samples that are paired piece by piece are paired as a whole, where the first piece
/// leaves no sample without a partner.
pub proof fn law_pairing_joins<S>(first: Seq<S>, second: Seq<S>)
    requires
        first.len() % 2 == 0,
    ensures
        paired(first + second) == paired(first) + paired(second),
{
    assert(paired(first + second) =~= paired(first) + paired(second));
}

/// Two samples are one frame, and one sample is none.
pub proof fn law_two_samples_are_a_frame<S>(left: S, right: S)
    ensures
        paired(seq![left, right]) == seq![Frame { left, right }],
        paired(seq![left]) == Seq::<Frame<S>>::empty(),
        paired(Seq::<S>::empty()) == Seq::<Frame<S>>::empty(),
{
    assert(paired(seq![left, right]) =~= seq![Frame { left, right }]);
    assert(paired(seq![left]) =~= Seq::<Frame<S>>::empty());
    assert(paired(Seq::<S>::empty()) =~= Seq::<Frame<S>>::empty());
}

/// Samples that are put on both ears piece by piece are so as a whole, in the order in
/// which they came.
pub proof fn law_doubling_joins<S>(first: Seq<S>, second: Seq<S>)
    ensures
        doubled(first + second) == doubled(first) + doubled(second),
{
    assert(doubled(first + second) =~= doubled(first) + doubled(second));
}

/// A single sample is put on both ears.
pub proof fn law_one_sample_on_both_ears<S>(sample: S)
    ensures
        doubled(seq![sample]) == seq![Frame { left: sample, right: sample }],
        doubled(Seq::<S>::empty()) == Seq::<Frame<S>>::empty(),
{
    assert(doubled(seq![sample]) =~= seq![Frame { left: sample, right: sample }]);
    assert(doubled(Seq::<S>::empty()) =~= Seq::<Frame<S>>::empty());
}

/// What a device recorded becomes frames point by point in time: the two samples of a
/// stereo device, and the one of a mono device on both ears.
pub proof fn law_each_point_in_time_is_a_frame<S>(samples: Seq<S>, i: int)
    ensures
        framed(samples, true).len() == samples.len() / 2,
        framed(samples, false).len() == samples.len(),
        0 <= i && 2 * i + 1 < samples.len() ==> framed(samples, true)[i] == (Frame {
            left: samples[2 * i],
            right: samples[2 * i + 1],
        }),
        0 <= i < samples.len() ==> framed(samples, false)[i] == (Frame {
            left: samples[i],
            right: samples[i],
        }),
{
}

/// What a stereo device recorded of what a stereo device plays are the frames again.
pub proof fn law_stereo_plays_the_frames<S, F: Fn(S, S) -> S>(
    samples: Seq<S>,
    frames: Seq<Frame<S>>,
    mix: F,
)
    ensures
        is_played(samples, frames, true, mix) <==> paired(samples) == frames && samples.len() == 2
            * frames.len(),
        is_played(samples, frames, true, mix) ==> forall|i: int|
            0 <= i < frames.len() ==> samples[2 * i] == (#[trigger] frames[i]).left && samples[2 * i
                + 1] == frames[i].right,
{
    if is_played(samples, frames, true, mix) {
        law_pairing_undoes_interleaving(frames);
    }
    if paired(samples) == frames && samples.len() == 2 * frames.len() {
        law_interleaving_undoes_pairing(samples);
    }
}

/// A mono device plays one sample for each frame, and what `mix` makes of that frame.
pub proof fn law_mono_plays_each_frame<S, F: Fn(S, S) -> S>(
    samples: Seq<S>,
    frames: Seq<Frame<S>>,
    mix: F,
)
    ensures
        is_played(samples, frames, false, mix) <==> {
            &&& samples.len() == frames.len()
            &&& forall|i: int|
                0 <= i < frames.len() ==> call_ensures(
                    mix,
                    (frames[i].left, frames[i].right),
                    #[trigger] samples[i],
                )
        },
{
}

/// What is played piece by piece is played as a whole.
pub proof fn law_playing_joins<S, F: Fn(S, S) -> S>(
    first: Seq<S>,
    first_frames: Seq<Frame<S>>,
    second: Seq<S>,
    second_frames: Seq<Frame<S>>,
    stereo: bool,
    mix: F,
)
    requires
        is_played(first, first_frames, stereo, mix),
        is_played(second, second_frames, stereo, mix),
    ensures
        is_played(first + second, first_frames + second_frames, stereo, mix),
{
    if stereo {
        law_interleaving_joins(first_frames, second_frames);
    } else {
        let samples = first + second;
        let frames = first_frames + second_frames;
        assert forall|i: int| 0 <= i < frames.len() implies call_ensures(
            mix,
            (frames[i].left, frames[i].right),
            #[trigger] samples[i],
        ) by {
            if i < first.len() {
                assert(samples[i] == first[i]);
            } else {
                assert(samples[i] == second[i - first.len()]);
            }
        }
    }
}

} // verus!
