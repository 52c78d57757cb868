//! What the programs on the command line decide.
use crate::identity::{PublicId, SecretId};
use crate::peer::Peer;
use crate::phone;
use vstd::prelude::*;
use vstd::string::{StrSliceExecFns, StringExecFns};

verus! {

/// What is said when a call has begun.
pub const WELCOME: &'static str = "Let's talk! ('M' to mute, 'D' to deafen, 'Q' to exit)";

/// What is said when a telephone call has begun.
pub const PHONE_WELCOME: &'static str = "Let's talk!";

/// What is said when a call is over.
pub const FAREWELL: &'static str = "Bye.";

/// How a program ends.
#[derive(Clone, Copy, PartialEq, Eq, Debug, Structural)]
pub enum Exit {
    /// All went well.
    Success,
    /// Something went wrong.
    Failure,
}

/// How far a program has come.
#[derive(Clone, Copy, PartialEq, Eq, Debug, Structural)]
pub enum Progress {
    /// It could not be set up.
    NotSetUp,
    /// Its arguments asked for nothing but a text, or were wrong; this is the exit code
    /// that goes with that.
    Answered(i32),
    /// It did not do what it was to do.
    Failed,
    /// It did what it was to do.
    Done,
}

/// How a program that has come so far ends.
pub fn exit(progress: Progress) -> (r: Exit)
    ensures
        r == if progress == Progress::Done || progress == Progress::Answered(0) {
            Exit::Success
        } else {
            Exit::Failure
        },
{
    match progress {
        Progress::Done => Exit::Success,
        Progress::Answered(code) => if code == 0 {
            Exit::Success
        } else {
            Exit::Failure
        },
        _ => Exit::Failure,
    }
}

/// `label` with `text` behind it.
fn labelled(label: &str, text: &str) -> (r: String)
    ensures
        r@ == label@ + text@,
{
    let mut r = String::from_str(label);
    r.append(text);
    r
}

/// What one is asked to do.
pub enum Command {
    /// Draw a new secret.
    Generate,
    /// Wait for somebody.
    Host {
        /// The secret to use, or none for a new one.
        secret: Option<SecretId>,
    },
    /// Call somebody.
    Join {
        /// Whom to call.
        id: PublicId,
    },
}

/// How a call comes about.
pub enum Method {
    /// Somebody calls.
    Host,
    /// One calls somebody.
    Join(PublicId),
}

/// What one does.
pub enum Plan {
    /// Print two lines.
    Print(String, String),
    /// Take part in a call, with the secret, or a new one where there is none.
    Call(Option<SecretId>, Method),
}

/// The line that shows the public name with the given bytes.
pub open spec fn public_line(public: Seq<u8>) -> Seq<char> {
    "Your public ID: "@ + crate::identity::hex_lower(public)
}

/// The line that shows a public name.
pub fn show_public(id: &PublicId) -> (r: String)
    ensures
        r@ == public_line(id@),
        r@ == "Your public ID: "@ + crate::identity::hex_lower(id@),
{
    labelled("Your public ID: ", id.to_text().as_str())
}

/// The lines that show a new secret and its public name.
pub fn show_secret(secret: &SecretId) -> (r: (String, String))
    ensures
        r.0@ == "Your SECRET ID: "@ + "SecretKey(..)"@,
        r.1@ == public_line(crate::identity::public_key_of(secret@)),
        r.1@ == "Your public ID: "@ + crate::identity::hex_lower(
            crate::identity::public_key_of(secret@),
        ),
{
    (labelled("Your SECRET ID: ", secret.to_text().as_str()), show_public(&secret.public()))
}

/// Decides what is done on a command.
pub fn plan(command: Command) -> (r: Plan)
    ensures
        match command {
            Command::Generate => {
                &&& r matches Plan::Print(first, second)
                &&& first@ == "Your SECRET ID: "@ + "SecretKey(..)"@
                &&& exists|secret: Seq<u8>|
                    secret.len() == 32 && second@ == public_line(
                        #[trigger] crate::identity::public_key_of(secret),
                    )
            },
            Command::Host { secret } => r == Plan::Call(secret, Method::Host),
            Command::Join { id } => r == Plan::Call(None, Method::Join(id)),
        },
{
    match command {
        Command::Generate => {
            let secret = SecretId::generate();
            let (first, second) = show_secret(&secret);
            Plan::Print(first, second)
        },
        Command::Host { secret } => Plan::Call(secret, Method::Host),
        Command::Join { id } => Plan::Call(None, Method::Join(id)),
    }
}

/// What one is asked to do with a telephone.
pub enum PhoneCommand {
    /// Draw a new secret.
    Generate,
    /// Wait for somebody.
    Host {
        /// The secret to use, or none for a new one.
        secret: Option<phone::Secret>,
    },
    /// Call somebody.
    Join {
        /// Whom to call.
        node_id: PublicId,
    },
}

/// What one does with a telephone.
pub enum PhonePlan {
    /// Print lines.
    Print(Vec<String>),
    /// Print lines, then wait for somebody.
    Host(phone::Instance, Vec<String>),
    /// Print lines, then call somebody.
    Join(phone::Instance, Vec<String>, PublicId),
}

/// The line that shows the name of a telephone with the given bytes.
pub open spec fn node_line(public: Seq<u8>) -> Seq<char> {
    "Your Node ID: "@ + crate::identity::hex_lower(public)
}

/// Whether `lines` are these texts.
pub open spec fn reads(lines: Seq<String>, texts: Seq<Seq<char>>) -> bool {
    &&& lines.len() == texts.len()
    &&& forall|i: int| 0 <= i < lines.len() ==> (#[trigger] lines[i])@ == texts[i]
}

/// The line that shows the name of a telephone.
pub fn show_node(id: &PublicId) -> (r: String)
    ensures
        r@ == node_line(id@),
        r@ == "Your Node ID: "@ + crate::identity::hex_lower(id@),
{
    labelled("Your Node ID: ", id.to_text().as_str())
}

/// The line that shows the secret of a telephone.
pub fn show_phone_secret(secret: &phone::Secret) -> (r: String)
    ensures
        r@ == "Your SECRET: "@ + crate::identity::hex_lower(secret@),
{
    labelled("Your SECRET: ", secret.to_text().as_str())
}

/// Decides what is done with a telephone on a command. One who waits is told the name to
/// give to others.
pub fn phone_plan(command: PhoneCommand) -> (r: PhonePlan)
    ensures
        match command {
            PhoneCommand::Generate => r matches PhonePlan::Print(lines) && exists|secret: Seq<u8>|
                secret.len() == 32 && reads(
                    lines@,
                    seq![
                        "Your SECRET: "@ + crate::identity::hex_lower(secret),
                        node_line(#[trigger] crate::identity::public_key_of(secret)),
                    ],
                ),
            PhoneCommand::Host { secret } => {
                &&& r matches PhonePlan::Host(instance, lines)
                &&& secret is Some ==> instance.secret_key() == secret->0@
                &&& secret is None ==> instance.secret_key().len() == 32
                &&& reads(
                    lines@,
                    seq![node_line(crate::identity::public_key_of(instance.secret_key()))],
                )
            },
            PhoneCommand::Join { node_id } => {
                &&& r matches PhonePlan::Join(instance, lines, id)
                &&& instance.secret_key().len() == 32
                &&& lines@.len() == 0
                &&& id == node_id
            },
        },
{
    match command {
        PhoneCommand::Generate => {
            let secret = phone::Secret::generate();
            let first = show_phone_secret(&secret);
            let second = show_node(&secret.node_id());
            let lines: Vec<String> = vec![first, second];
            proof {
                let public = crate::identity::public_key_of(secret@);
                assert(reads(
                    lines@,
                    seq![
                        "Your SECRET: "@ + crate::identity::hex_lower(secret@),
                        node_line(public),
                    ],
                ));
            }
            PhonePlan::Print(lines)
        },
        PhoneCommand::Host { secret } => {
            let instance = phone::Instance::bind(secret);
            let line = show_node(&instance.secret().node_id());
            PhonePlan::Host(instance, vec![line])
        },
        PhoneCommand::Join { node_id } => {
            PhonePlan::Join(phone::Instance::bind(None), Vec::new(), node_id)
        },
    }
}

/// Decides what is done on a command where only keys are printed: a new secret, or the
/// name of the one who takes part.
pub fn bare_plan(command: PhoneCommand) -> (r: PhonePlan)
    ensures
        match command {
            PhoneCommand::Generate => r matches PhonePlan::Print(lines) && exists|secret: Seq<u8>|
                secret.len() == 32 && reads(
                    lines@,
                    seq![#[trigger] crate::identity::hex_lower(secret)],
                ),
            PhoneCommand::Host { secret } => {
                &&& r matches PhonePlan::Host(instance, lines)
                &&& secret is Some ==> instance.secret_key() == secret->0@
                &&& secret is None ==> instance.secret_key().len() == 32
                &&& reads(
                    lines@,
                    seq![
                        crate::identity::hex_lower(
                            crate::identity::public_key_of(instance.secret_key()),
                        ),
                    ],
                )
            },
            PhoneCommand::Join { node_id } => {
                &&& r matches PhonePlan::Join(instance, lines, id)
                &&& instance.secret_key().len() == 32
                &&& reads(
                    lines@,
                    seq![
                        crate::identity::hex_lower(
                            crate::identity::public_key_of(instance.secret_key()),
                        ),
                    ],
                )
                &&& id == node_id
            },
        },
{
    match command {
        PhoneCommand::Generate => {
            let secret = phone::Secret::generate();
            let lines: Vec<String> = vec![secret.to_text()];
            proof {
                let text = crate::identity::hex_lower(secret@);
                assert(reads(lines@, seq![text]));
            }
            PhonePlan::Print(lines)
        },
        PhoneCommand::Host { secret } => {
            let instance = phone::Instance::bind(secret);
            let line = instance.secret().node_id().to_text();
            PhonePlan::Host(instance, vec![line])
        },
        PhoneCommand::Join { node_id } => {
            let instance = phone::Instance::bind(None);
            let line = instance.secret().node_id().to_text();
            PhonePlan::Join(instance, vec![line], node_id)
        },
    }
}

/// Whether a character is white space.
pub open spec fn is_white(c: char) -> bool {
    let code = c as u32;
    ||| 0x9 <= code <= 0xd
    ||| code == 0x20
    ||| code == 0x85
    ||| code == 0xa0
    ||| code == 0x1680
    ||| 0x2000 <= code <= 0x200a
    ||| code == 0x2028
    ||| code == 0x2029
    ||| code == 0x202f
    ||| code == 0x205f
    ||| code == 0x3000
}

/// A text without the white space in front of it and behind it.
pub open spec fn trimmed(text: Seq<char>) -> Seq<char>
    decreases text.len(),
{
    if text.len() == 0 {
        text
    } else if is_white(text.first()) {
        trimmed(text.drop_first())
    } else if is_white(text.last()) {
        trimmed(text.drop_last())
    } else {
        text
    }
}

/// Whether a character is white space.
pub fn is_white_space(c: char) -> (r: bool)
    ensures
        r == is_white(c),
{
    let code: u32 = c as u32;
    (0x9 <= code && code <= 0xd) || code == 0x20 || code == 0x85 || code == 0xa0 || code == 0x1680
        || (0x2000 <= code && code <= 0x200a) || code == 0x2028 || code == 0x2029 || code == 0x202f
        || code == 0x205f || code == 0x3000
}

/// The one character that a line holds besides white space around it, if it is one.
pub fn single_char(line: &str) -> (r: Option<char>)
    ensures
        match r {
            Some(c) => trimmed(line@) == seq![c],
            None => trimmed(line@).len() != 1,
        },
{
    let mut start: usize = 0;
    let mut end: usize = line.unicode_len();
    assert(line@.subrange(0, end as int) =~= line@);
    while start < end && is_white_space(line.get_char(start))
        invariant
            start <= end,
            end == line@.len(),
            trimmed(line@) == trimmed(line@.subrange(start as int, end as int)),
        ensures
            start <= end,
            end == line@.len(),
            trimmed(line@) == trimmed(line@.subrange(start as int, end as int)),
            start < end ==> !is_white(line@[start as int]),
        decreases end - start,
    {
        assert(line@.subrange(start as int, end as int).drop_first() =~= line@.subrange(
            start + 1,
            end as int,
        ));
        start += 1;
    }
    while start < end && is_white_space(line.get_char(end - 1))
        invariant
            start <= end <= line@.len(),
            trimmed(line@) == trimmed(line@.subrange(start as int, end as int)),
            start < end ==> !is_white(line@[start as int]),
        ensures
            start <= end <= line@.len(),
            trimmed(line@) == trimmed(line@.subrange(start as int, end as int)),
            start < end ==> !is_white(line@[start as int]),
            start < end ==> !is_white(line@[end - 1]),
        decreases end - start,
    {
        assert(line@.subrange(start as int, end as int).drop_last() =~= line@.subrange(
            start as int,
            end - 1,
        ));
        end -= 1;
    }
    if end - start == 1 {
        let c: char = line.get_char(start);
        assert(line@.subrange(start as int, end as int) =~= seq![c]);
        Some(c)
    } else {
        None
    }
}

/// What came of waiting for a line.
#[derive(Debug)]
pub enum Input {
    /// A line.
    Line(String),
    /// There will be none any more.
    End,
    /// Reading failed.
    Failed,
}

/// What is done after waiting for a line.
#[derive(Clone, Copy, Debug)]
pub enum Response {
    /// Print this, and wait for the next line.
    Print(&'static str),
    /// Wait for the next line.
    Ignore,
    /// Close the call, and wait for no more lines.
    Close,
    /// Wait for no more lines.
    Stop,
    /// Warn of the failure, and wait for no more lines.
    Warn,
}

/// Answers a line: `M` mutes the microphone or not, `D` silences the speaker or not, `Q`
/// closes the call, and any other line does nothing.
pub fn respond<S: Copy>(input: Input, peer: &mut Peer<S>) -> (r: Response)
    ensures
        final(peer).rec_ring() == old(peer).rec_ring(),
        final(peer).play_ring() == old(peer).play_ring(),
        match input {
            Input::Line(line) => {
                let key = trimmed(line@);
                &&& final(peer).muted() == (old(peer).muted() != (key == "M"@))
                &&& final(peer).deafened() == (old(peer).deafened() != (key == "D"@))
                &&& if key == "M"@ {
                    r matches Response::Print(text) && text@ == if final(peer).muted() {
                        "[ MUTED ]"@
                    } else {
                        "[ UNMUTED ]"@
                    }
                } else if key == "D"@ {
                    r matches Response::Print(text) && text@ == if final(peer).deafened() {
                        "[ DEAFENED ]"@
                    } else {
                        "[ UNDEAFENED ]"@
                    }
                } else if key == "Q"@ {
                    r is Close
                } else {
                    r is Ignore
                }
            },
            Input::End => r is Stop && final(peer).same_switches(*old(peer)),
            Input::Failed => r is Warn && final(peer).same_switches(*old(peer)),
        },
{
    proof {
        reveal_strlit("M");
        reveal_strlit("D");
        reveal_strlit("Q");
        assert("M"@ =~= seq!['M']);
        assert("D"@ =~= seq!['D']);
        assert("Q"@ =~= seq!['Q']);
    }
    match input {
        Input::Line(line) => {
            let key: Option<char> = single_char(line.as_str());
            assert(key is Some ==> trimmed(line@)[0] == key->0);
            match key {
                Some('M') => {
                    let mute = peer.mute_handle();
                    mute.toggle();
                    if mute.is_on() {
                        Response::Print("[ MUTED ]")
                    } else {
                        Response::Print("[ UNMUTED ]")
                    }
                },
                Some('D') => {
                    let deafen = peer.deafen_handle();
                    deafen.toggle();
                    if deafen.is_on() {
                        Response::Print("[ DEAFENED ]")
                    } else {
                        Response::Print("[ UNDEAFENED ]")
                    }
                },
                Some('Q') => Response::Close,
                _ => Response::Ignore,
            }
        },
        Input::End => Response::Stop,
        Input::Failed => Response::Warn,
    }
}

/// A name is shown in hexadecimal digits behind the words that say what it is.
pub proof fn law_names_are_shown_behind_their_words(public: Seq<u8>)
    ensures
        public_line(public) == "Your public ID: "@ + crate::identity::hex_lower(public),
        node_line(public) == "Your Node ID: "@ + crate::identity::hex_lower(public),
{
}

/// Lines are texts where there are as many, and each is the text at its place.
pub proof fn law_lines_are_texts_one_by_one(lines: Seq<String>, texts: Seq<Seq<char>>)
    ensures
        reads(lines, texts) <==> lines.map_values(|line: String| line@) == texts,
{
    let shown = lines.map_values(|line: String| line@);
    if shown == texts {
        assert forall|i: int| 0 <= i < lines.len() implies (#[trigger] lines[i])@ == texts[i] by {
            assert(shown[i] == texts[i]);
        }
    }
    if reads(lines, texts) {
        assert(shown =~= texts);
    }
}

/// White space, and nothing but white space, is taken away in front of a text and behind it:
/// what is left is a piece of the text that neither starts nor ends with white space, and
/// all around it is.
pub proof fn law_trimming_takes_white_space_only(text: Seq<char>) -> (r: (int, int))
    ensures
        0 <= r.0 <= r.1 <= text.len(),
        trimmed(text) == text.subrange(r.0, r.1),
        forall|i: int| 0 <= i < r.0 ==> is_white(#[trigger] text[i]),
        forall|i: int| r.1 <= i < text.len() ==> is_white(#[trigger] text[i]),
        r.0 < r.1 ==> !is_white(text[r.0]) && !is_white(text[r.1 - 1]),
    decreases text.len(),
{
    if text.len() == 0 {
        assert(text.subrange(0, 0) =~= text);
        (0, 0)
    } else if is_white(text.first()) {
        let rest = text.drop_first();
        let (from, to) = law_trimming_takes_white_space_only(rest);
        assert(rest.subrange(from, to) =~= text.subrange(from + 1, to + 1));
        assert forall|i: int| 0 <= i < from + 1 implies is_white(#[trigger] text[i]) by {
            if i > 0 {
                assert(rest[i - 1] == text[i]);
            }
        }
        assert forall|i: int| to + 1 <= i < text.len() implies is_white(#[trigger] text[i]) by {
            assert(rest[i - 1] == text[i]);
        }
        (from + 1, to + 1)
    } else if is_white(text.last()) {
        let rest = text.drop_last();
        let (from, to) = law_trimming_takes_white_space_only(rest);
        assert(rest.subrange(from, to) =~= text.subrange(from, to));
        assert forall|i: int| 0 <= i < from implies is_white(#[trigger] text[i]) by {
            assert(rest[i] == text[i]);
        }
        assert forall|i: int| to <= i < text.len() implies is_white(#[trigger] text[i]) by {
            if i < rest.len() {
                assert(rest[i] == text[i]);
            }
        }
        (from, to)
    } else {
        assert(text.subrange(0, text.len() as int) =~= text);
        (0, text.len() as int)
    }
}

/// White space around a text does not change what is left of it.
pub proof fn law_white_space_around_does_not_matter(text: Seq<char>, space: char)
    requires
        is_white(space),
    ensures
        trimmed(seq![space] + text) == trimmed(text),
        trimmed(text + seq![space]) == trimmed(text),
    decreases text.len(),
{
    let front = seq![space] + text;
    assert(front.drop_first() =~= text);
    let back = text + seq![space];
    assert(back.drop_last() =~= text);
    if text.len() > 0 && is_white(text.first()) {
        law_white_space_around_does_not_matter(text.drop_first(), space);
        assert(back.drop_first() =~= text.drop_first() + seq![space]);
    } else if text.len() == 0 {
        assert(back.drop_first() =~= text);
    }
}

/// Letters and digits are no white space.
pub proof fn law_letters_are_no_white_space(c: char)
    ensures
        'A' <= c <= 'Z' || 'a' <= c <= 'z' || '0' <= c <= '9' ==> !is_white(c),
        is_white(' '),
        is_white('\n'),
        is_white('\r'),
        is_white('\t'),
{
}

} // verus!
