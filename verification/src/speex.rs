//! The buffers in front of and behind the Speex resampler.
//!
//! The resampler itself is a C library that works on floating-point samples. It is
//! asked with a `Request`, and what it answers comes in as a `Reply`.
use crate::word::word_of;
use vstd::prelude::*;
use vstd::string::StringExecFns;

verus! {

/// The number with which the library says that all went well.
pub const RESAMPLER_ERR_SUCCESS: i32 = 0;

/// An error number of the Speex library.
#[derive(Clone, Copy, PartialEq, Eq, Hash, Debug, Structural)]
pub struct SpeexError(i32);

impl SpeexError {
    /// The number that the library gave.
    pub closed spec fn number(&self) -> i32 {
        self.0
    }

    /// Tells an error from success.
    pub fn new(error: i32) -> (r: Result<(), Self>)
        ensures
            r is Ok <==> error == RESAMPLER_ERR_SUCCESS,
            r is Err ==> r->Err_0.number() == error,
    {
        if error == RESAMPLER_ERR_SUCCESS {
            Ok(())
        } else {
            Err(SpeexError(error))
        }
    }

    /// The number that the library gave, with which it is asked for a text.
    pub fn code(&self) -> (r: i32)
        ensures
            r == self.number(),
    {
        self.0
    }

    /// The message for this error, made of the text that the library has for it.
    pub fn message(&self, text: &str) -> (r: String)
        ensures
            r@ == "speex: "@ + text@,
    {
        let mut r = String::from_str("speex: ");
        r.append(text);
        r
    }
}

/// How many samples there is room for when `len` samples go from one rate to the
/// other.
pub open spec fn resampled_len(len: int, in_rate: u32, out_rate: u32) -> int {
    len * out_rate / (in_rate as int) + 1
}

/// What the resampler is asked to do: how many points in time it may read, how
/// many it may write, and how many samples its buffer has.
#[derive(Clone, Copy, PartialEq, Eq, Debug, Structural)]
pub struct Request {
    pub in_len: u32,
    pub out_len: u32,
    pub buffer_len: usize,
}

/// Whether the resampler can be asked about `len` samples: its numbers are not zero, and
/// the length of its buffer can be computed.
pub open spec fn can_ask(len: int, channels: u32, in_rate: u32, out_rate: u32) -> bool {
    &&& channels > 0
    &&& in_rate > 0
    &&& len * out_rate <= usize::MAX
    &&& resampled_len(len, in_rate, out_rate) <= usize::MAX
}

/// What the resampler is asked to do with `len` samples.
pub open spec fn request_for(len: int, channels: u32, in_rate: u32, out_rate: u32) -> Request {
    let buffer_len = resampled_len(len, in_rate, out_rate);
    Request {
        in_len: (crate::word::low_word(len) / channels as int) as u32,
        out_len: (crate::word::low_word(buffer_len) / channels as int) as u32,
        buffer_len: buffer_len as usize,
    }
}

/// Whether the resampler can be asked about `len` samples.
pub fn is_askable(len: usize, channels: u32, in_rate: u32, out_rate: u32) -> (r: bool)
    ensures
        r == can_ask(len as int, channels, in_rate, out_rate),
{
    if channels == 0 || in_rate == 0 {
        return false;
    }
    match len.checked_mul(out_rate as usize) {
        Some(product) => product / (in_rate as usize) < usize::MAX,
        None => false,
    }
}

/// What the resampler is to be asked about `len` samples.
pub fn make_request(len: usize, channels: u32, in_rate: u32, out_rate: u32) -> (r: Request)
    requires
        can_ask(len as int, channels, in_rate, out_rate),
    ensures
        r == request_for(len as int, channels, in_rate, out_rate),
        (r.buffer_len - 1) * in_rate <= len * out_rate < r.buffer_len * in_rate,
        len <= u32::MAX ==> channels * r.in_len <= len < channels * (r.in_len + 1),
        r.buffer_len <= u32::MAX ==> channels * r.out_len <= r.buffer_len < channels * (r.out_len
            + 1),
{
    proof {
        lemma_resampled_len(len as int, in_rate, out_rate);
        law_the_resampler_has_room(len as int, in_rate, out_rate);
        law_the_resampler_is_asked_for_all(len as int, channels, in_rate, out_rate);
    }
    let buffer_len: usize = len * out_rate as usize / in_rate as usize + 1;
    Request {
        in_len: word_of(len) / channels,
        out_len: word_of(buffer_len) / channels,
        buffer_len,
    }
}

/// What the resampler answered: an error number, how many points in time it has
/// read and written, and the buffer that it wrote to.
pub struct Reply<S> {
    pub error: i32,
    pub in_len: u32,
    pub out_len: u32,
    pub buffer: Vec<S>,
}

impl<S> Reply<S> {
    /// Whether this can be the answer to `request`: the resampler reads and writes
    /// no more than it may.
    pub open spec fn answers(&self, request: Request) -> bool {
        &&& self.in_len <= request.in_len
        &&& self.out_len <= request.out_len
        &&& self.buffer@.len() == request.buffer_len
    }

    /// Whether this can be the answer to `request`.
    pub fn is_answer(&self, request: Request) -> (r: bool)
        ensures
            r == self.answers(request),
    {
        self.in_len <= request.in_len && self.out_len <= request.out_len && self.buffer.len()
            == request.buffer_len
    }
}

/// Samples that wait to be resampled, and those that came out last.
pub struct Resampler<S> {
    channels: u32,
    in_rate: u32,
    out_rate: u32,
    input: Vec<S>,
    output: Vec<S>,
}

impl<S: Copy> Resampler<S> {
    /// How many samples make one point in time.
    pub closed spec fn channels(&self) -> u32 {
        self.channels
    }

    /// The rate of the samples that go in.
    pub closed spec fn in_rate(&self) -> u32 {
        self.in_rate
    }

    /// The rate of the samples that come out.
    pub closed spec fn out_rate(&self) -> u32 {
        self.out_rate
    }

    /// The samples that wait to be resampled.
    pub closed spec fn pending(&self) -> Seq<S> {
        self.input@
    }

    /// The samples that came out last.
    pub closed spec fn samples(&self) -> Seq<S> {
        self.output@
    }

    /// Whether the resampler can be asked about the samples that wait.
    pub open spec fn can_resample(&self) -> bool {
        can_ask(self.pending().len() as int, self.channels(), self.in_rate(), self.out_rate())
    }

    /// What the resampler is asked to do with the samples that wait.
    pub open spec fn asked(&self) -> Request {
        request_for(self.pending().len() as int, self.channels(), self.in_rate(), self.out_rate())
    }

    /// Starts with nothing, unless the library refused to make a resampler.
    pub fn new(channels: u32, in_rate: u32, out_rate: u32, error: i32) -> (r: Result<
        Self,
        SpeexError,
    >)
        ensures
            r is Ok <==> error == RESAMPLER_ERR_SUCCESS,
            r is Ok ==> {
                &&& r->Ok_0.channels() == channels
                &&& r->Ok_0.in_rate() == in_rate
                &&& r->Ok_0.out_rate() == out_rate
                &&& r->Ok_0.pending() == Seq::<S>::empty()
                &&& r->Ok_0.samples() == Seq::<S>::empty()
            },
            r is Err ==> r->Err_0.number() == error,
    {
        match SpeexError::new(error) {
            Ok(()) => Ok(
                Resampler { channels, in_rate, out_rate, input: Vec::new(), output: Vec::new() },
            ),
            Err(error) => Err(error),
        }
    }

    /// The samples that wait to be resampled, to append to.
    pub fn input(&mut self) -> (r: &mut Vec<S>)
        ensures
            r@ == old(self).pending(),
            final(self).pending() == final(r)@,
            final(self).channels() == old(self).channels(),
            final(self).in_rate() == old(self).in_rate(),
            final(self).out_rate() == old(self).out_rate(),
            final(self).samples() == old(self).samples(),
    {
        &mut self.input
    }

    /// The samples that wait to be resampled.
    pub fn waiting(&self) -> (r: &[S])
        ensures
            r@ == self.pending(),
    {
        self.input.as_slice()
    }

    /// The samples that came out last.
    pub fn output(&self) -> (r: &[S])
        ensures
            r@ == self.samples(),
    {
        self.output.as_slice()
    }

    /// Whether the resampler can be asked.
    pub fn is_usable(&self) -> (r: bool)
        ensures
            r == self.can_resample(),
            r == can_ask(
                self.pending().len() as int,
                self.channels(),
                self.in_rate(),
                self.out_rate(),
            ),
    {
        is_askable(self.input.len(), self.channels, self.in_rate, self.out_rate)
    }

    /// What the resampler is to be asked.
    pub fn request(&self) -> (r: Request)
        requires
            self.can_resample(),
        ensures
            r == self.asked(),
            r == request_for(
                self.pending().len() as int,
                self.channels(),
                self.in_rate(),
                self.out_rate(),
            ),
    {
        make_request(self.input.len(), self.channels, self.in_rate, self.out_rate)
    }

    /// Takes in what the resampler made of the samples that wait. Where it failed,
    /// they stay and the whole buffer is kept; otherwise those that were read go, and
    /// as much of the buffer is kept as was filled.
    pub fn resample(&mut self, reply: Reply<S>) -> (r: Result<(), SpeexError>)
        requires
            old(self).can_resample(),
            reply.answers(old(self).asked()),
        ensures
            final(self).channels() == old(self).channels(),
            final(self).in_rate() == old(self).in_rate(),
            final(self).out_rate() == old(self).out_rate(),
            r is Ok <==> reply.error == RESAMPLER_ERR_SUCCESS,
            r is Ok ==> {
                &&& final(self).pending() == old(self).pending().skip(
                    old(self).channels() * reply.in_len,
                )
                &&& final(self).samples() == reply.buffer@.take(
                    old(self).channels() * reply.out_len,
                )
                &&& old(self).channels() * reply.in_len <= old(self).pending().len()
                &&& old(self).channels() * reply.out_len <= reply.buffer@.len()
            },
            r is Err ==> {
                &&& r->Err_0.number() == reply.error
                &&& final(self).pending() == old(self).pending()
                &&& final(self).samples() == reply.buffer@
            },
    {
        let error: i32 = reply.error;
        let in_len: u32 = reply.in_len;
        let out_len: u32 = reply.out_len;
        proof {
            lemma_reply_fits(
                self.pending().len() as int,
                self.channels,
                self.in_rate,
                self.out_rate,
                reply,
            );
        }
        self.output = reply.buffer;
        match SpeexError::new(error) {
            Ok(()) => {
                let rest = self.input.split_off((self.channels * in_len) as usize);
                self.input = rest;
                self.output.truncate((self.channels * out_len) as usize);
                Ok(())
            },
            Err(error) => Err(error),
        }
    }
}

proof fn lemma_resampled_len(len: int, in_rate: u32, out_rate: u32)
    requires
        0 <= len,
        0 < in_rate,
    ensures
        0 <= len * out_rate,
        1 <= resampled_len(len, in_rate, out_rate),
{
    let product = len * out_rate;
    assert(0 <= product) by (nonlinear_arith)
        requires
            product == len * out_rate,
            0 <= len,
    ;
    assert(0 <= product / (in_rate as int)) by (nonlinear_arith)
        requires
            0 <= product,
            0 < in_rate,
    ;
}

/// The resampler reads no more than there is, and writes no more than there is room for.
pub proof fn lemma_reply_fits<S>(
    len: int,
    channels: u32,
    in_rate: u32,
    out_rate: u32,
    reply: Reply<S>,
)
    requires
        0 <= len,
        can_ask(len, channels, in_rate, out_rate),
        reply.answers(request_for(len, channels, in_rate, out_rate)),
    ensures
        0 <= channels * reply.in_len <= len,
        channels * reply.in_len <= u32::MAX,
        0 <= channels * reply.out_len <= reply.buffer@.len(),
        channels * reply.out_len <= u32::MAX,
{
    lemma_resampled_len(len, in_rate, out_rate);
    lemma_share_fits(len, channels as int, reply.in_len as int);
    lemma_share_fits(
        resampled_len(len, in_rate, out_rate),
        channels as int,
        reply.out_len as int,
    );
}

proof fn lemma_share_fits(len: int, channels: int, count: int)
    requires
        0 <= len,
        0 < channels,
        0 <= count <= crate::word::low_word(len) / channels,
    ensures
        0 <= crate::word::low_word(len) / channels <= u32::MAX,
        0 <= channels * count <= crate::word::low_word(len) <= len,
        crate::word::low_word(len) <= u32::MAX,
{
    let word = crate::word::low_word(len);
    assert(0 <= word / channels <= word && channels * (word / channels) <= word)
        by (nonlinear_arith)
        requires
            0 <= word,
            0 < channels,
    ;
    assert(0 <= channels * count <= channels * (word / channels)) by (nonlinear_arith)
        requires
            0 <= count <= word / channels,
            0 < channels,
    ;
}

/// The resampler's buffer has room for all that the samples come to at the other rate, and
/// for no more than one sample beyond.
pub proof fn law_the_resampler_has_room(len: int, in_rate: u32, out_rate: u32)
    requires
        0 <= len,
        0 < in_rate,
    ensures
        (resampled_len(len, in_rate, out_rate) - 1) * in_rate <= len * out_rate,
        len * out_rate < resampled_len(len, in_rate, out_rate) * in_rate,
{
    let product = len * out_rate;
    let rate = in_rate as int;
    let whole = product / rate;
    assert(whole * rate <= product < (whole + 1) * rate) by (nonlinear_arith)
        requires
            0 < rate,
            whole == product / rate,
    ;
}

/// The resampler is asked to read every whole point in time that waits, and to write as many
/// as its buffer has room for.
pub proof fn law_the_resampler_is_asked_for_all(
    len: int,
    channels: u32,
    in_rate: u32,
    out_rate: u32,
)
    requires
        0 <= len,
        can_ask(len, channels, in_rate, out_rate),
    ensures
        ({
            let request = request_for(len, channels, in_rate, out_rate);
            &&& request.buffer_len == resampled_len(len, in_rate, out_rate)
            &&& len <= u32::MAX ==> channels * request.in_len <= len < channels * (request.in_len
                + 1)
            &&& request.buffer_len <= u32::MAX ==> channels * request.out_len
                <= request.buffer_len < channels * (request.out_len + 1)
        }),
{
    lemma_resampled_len(len, in_rate, out_rate);
    lemma_whole_share(len, channels as int);
    lemma_whole_share(resampled_len(len, in_rate, out_rate), channels as int);
}

proof fn lemma_whole_share(len: int, channels: int)
    requires
        0 <= len,
        0 < channels,
    ensures
        0 <= crate::word::low_word(len) / channels <= u32::MAX,
        channels * (crate::word::low_word(len) / channels) <= crate::word::low_word(len),
        crate::word::low_word(len) < channels * (crate::word::low_word(len) / channels + 1),
        len <= u32::MAX ==> crate::word::low_word(len) == len,
{
    let word = crate::word::low_word(len);
    let share = word / channels;
    assert(0 <= share <= word && channels * share <= word < channels * (share + 1))
        by (nonlinear_arith)
        requires
            0 <= word,
            0 < channels,
            share == word / channels,
    ;
}

/// The resampler can be asked exactly where its numbers are not zero and the length of its
/// buffer does not go beyond what can be counted on the way.
pub proof fn law_when_the_resampler_can_be_asked(
    len: int,
    channels: u32,
    in_rate: u32,
    out_rate: u32,
)
    requires
        0 <= len,
    ensures
        can_ask(len, channels, in_rate, out_rate) <==> {
            &&& channels != 0
            &&& in_rate != 0
            &&& len * out_rate <= usize::MAX
            &&& resampled_len(len, in_rate, out_rate) <= usize::MAX
        },
        can_ask(len, channels, in_rate, out_rate) ==> forall|fewer: int|
            0 <= fewer <= len ==> #[trigger] can_ask(fewer, channels, in_rate, out_rate),
{
    if can_ask(len, channels, in_rate, out_rate) {
        assert forall|fewer: int| 0 <= fewer <= len implies #[trigger] can_ask(
            fewer,
            channels,
            in_rate,
            out_rate,
        ) by {
            let rate = in_rate as int;
            let product = len * out_rate;
            let smaller = fewer * out_rate;
            assert(smaller <= product) by (nonlinear_arith)
                requires
                    fewer <= len,
                    product == len * out_rate,
                    smaller == fewer * out_rate,
            ;
            assert(smaller / rate <= product / rate) by (nonlinear_arith)
                requires
                    smaller <= product,
                    0 < rate,
            ;
        }
    }
}

/// An answer reads and writes no more than it was asked to, and keeps the buffer.
pub proof fn law_an_answer_keeps_to_the_request<S>(reply: Reply<S>, request: Request)
    ensures
        reply.answers(request) <==> {
            &&& reply.in_len <= request.in_len
            &&& reply.out_len <= request.out_len
            &&& reply.buffer@.len() == request.buffer_len
        },
{
}

} // verus!
