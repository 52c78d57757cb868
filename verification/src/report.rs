//! Errors that carry the traces of where they came up.
use vstd::prelude::*;
use vstd::string::StringExecFns;

verus! {

/// An error with two traces, each as text.
#[derive(Debug)]
pub struct Report {
    /// What went wrong.
    pub error: String,
    /// The functions that were running.
    pub backtrace: String,
    /// The spans that were open.
    pub spantrace: String,
}

/// Three paragraphs with an empty line between them.
pub open spec fn paragraphs(first: Seq<char>, second: Seq<char>, third: Seq<char>) -> Seq<char> {
    first + "\n\n"@ + second + "\n\n"@ + third
}

impl Report {
    /// The report on `error`.
    pub fn new(error: String, backtrace: String, spantrace: String) -> (r: Self)
        ensures
            r.error@ == error@,
            r.backtrace@ == backtrace@,
            r.spantrace@ == spantrace@,
    {
        Report { error, backtrace, spantrace }
    }

    /// The error, then the functions, then the spans.
    pub fn to_text(&self) -> (r: String)
        ensures
            r@ == paragraphs(self.error@, self.backtrace@, self.spantrace@),
            r@ == self.error@ + "\n\n"@ + self.backtrace@ + "\n\n"@ + self.spantrace@,
    {
        let mut r = String::new();
        r.append(self.error.as_str());
        r.append("\n\n");
        r.append(self.backtrace.as_str());
        r.append("\n\n");
        r.append(self.spantrace.as_str());
        r
    }
}

/// The three texts stand whole and in their order, and between each two of them there are
/// two line breaks and nothing else.
pub proof fn law_paragraphs_keep_their_texts(
    first: Seq<char>,
    second: Seq<char>,
    third: Seq<char>,
)
    ensures
        ({
            let text = paragraphs(first, second, third);
            let after_first = text.skip(first.len() as int);
            let after_second = after_first.skip(2 + second.len() as int);
            &&& text.len() == first.len() + second.len() + third.len() + 4
            &&& text.take(first.len() as int) == first
            &&& after_first.take(2) == seq!['\n', '\n']
            &&& after_first.skip(2).take(second.len() as int) == second
            &&& after_second.take(2) == seq!['\n', '\n']
            &&& after_second.skip(2) == third
        }),
{
    reveal_strlit("\n\n");
    let text = paragraphs(first, second, third);
    let after_first = text.skip(first.len() as int);
    let after_second = after_first.skip(2 + second.len() as int);
    assert(text.take(first.len() as int) =~= first);
    assert(after_first.take(2) =~= seq!['\n', '\n']);
    assert(after_first.skip(2).take(second.len() as int) =~= second);
    assert(after_second.take(2) =~= seq!['\n', '\n']);
    assert(after_second.skip(2) =~= third);
}

} // verus!
