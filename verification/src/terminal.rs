//! The order in which a terminal is taken over and given back.
use vstd::prelude::*;

verus! {

/// What is to be done with the terminal next.
#[derive(Clone, Copy, PartialEq, Eq, Debug, Structural)]
pub enum Step {
    /// Open it.
    Open,
    /// Switch raw mode on.
    EnableRaw,
    /// Go to the alternate screen.
    EnterAlternate,
    /// Nothing: it can be drawn on.
    Draw,
    /// Switch raw mode off, because the alternate screen could not be had.
    RevertRaw,
    /// Switch raw mode off.
    DisableRaw,
    /// Leave the alternate screen.
    LeaveAlternate,
    /// Nothing: it was given back.
    Closed,
    /// Nothing: it could not be taken over.
    NotOpened,
    /// Nothing: it could not be given back.
    NotClosed,
}

/// What is switched on in a terminal.
#[derive(Clone, Copy, PartialEq, Eq, Debug, Structural)]
pub struct Modes {
    /// Raw mode.
    pub raw: bool,
    /// The alternate screen.
    pub alternate: bool,
}

/// What comes after a step that worked, or did not.
pub open spec fn following(step: Step, ok: bool) -> Step {
    match step {
        Step::Open => if ok {
            Step::EnableRaw
        } else {
            Step::NotOpened
        },
        Step::EnableRaw => if ok {
            Step::EnterAlternate
        } else {
            Step::NotOpened
        },
        Step::EnterAlternate => if ok {
            Step::Draw
        } else {
            Step::RevertRaw
        },
        Step::RevertRaw => Step::NotOpened,
        Step::DisableRaw => if ok {
            Step::LeaveAlternate
        } else {
            Step::NotClosed
        },
        Step::LeaveAlternate => if ok {
            Step::Closed
        } else {
            Step::NotClosed
        },
        _ => step,
    }
}

/// What is switched on after a step that worked, or did not.
pub open spec fn effect(modes: Modes, step: Step, ok: bool) -> Modes {
    if !ok {
        modes
    } else {
        match step {
            Step::EnableRaw => (Modes { raw: true, ..modes }),
            Step::EnterAlternate => (Modes { alternate: true, ..modes }),
            Step::RevertRaw | Step::DisableRaw => (Modes { raw: false, ..modes }),
            Step::LeaveAlternate => (Modes { alternate: false, ..modes }),
            _ => modes,
        }
    }
}

/// Nothing is switched on.
pub open spec fn plain() -> Modes {
    Modes { raw: false, alternate: false }
}

/// The steps that take a terminal over, one after the other, where `oks` tells which of
/// them work, with what is switched on after them.
pub open spec fn opening(oks: Seq<bool>) -> (Step, Modes)
    decreases oks.len(),
{
    if oks.len() == 0 {
        (Step::Open, plain())
    } else {
        let (step, modes) = opening(oks.drop_last());
        (following(step, oks.last()), effect(modes, step, oks.last()))
    }
}

/// The steps that give a terminal back, one after the other, where `oks` tells which of
/// them work, with what is switched on after them.
pub open spec fn closing(oks: Seq<bool>) -> (Step, Modes)
    decreases oks.len(),
{
    if oks.len() == 0 {
        (Step::DisableRaw, Modes { raw: true, alternate: true })
    } else {
        let (step, modes) = closing(oks.drop_last());
        (following(step, oks.last()), effect(modes, step, oks.last()))
    }
}

/// A terminal that can be drawn on is in raw mode and shows the alternate screen. One that
/// could not be taken over is as it was, unless raw mode could not be switched off again.
pub proof fn law_a_terminal_is_taken_over_wholly_or_not_at_all(oks: Seq<bool>)
    ensures
        opening(oks).0 == Step::Draw ==> opening(oks).1 == (Modes { raw: true, alternate: true }),
        opening(oks).0 == Step::NotOpened ==> {
            ||| opening(oks).1 == plain()
            ||| oks.len() > 3 && !oks[3] && opening(oks).1 == (Modes { raw: true, alternate: false })
        },
        oks.len() >= 4 ==> opening(oks).0 == Step::Draw || opening(oks).0 == Step::NotOpened,
        match opening(oks).0 {
            Step::Open => oks.len() == 0 && opening(oks).1 == plain(),
            Step::EnableRaw => oks.len() == 1 && opening(oks).1 == plain(),
            Step::EnterAlternate => oks.len() == 2 && opening(oks).1 == (Modes {
                raw: true,
                alternate: false,
            }),
            Step::RevertRaw => oks.len() == 3 && opening(oks).1 == (Modes {
                raw: true,
                alternate: false,
            }),
            Step::Draw => oks.len() >= 3,
            Step::NotOpened => oks.len() >= 1,
            _ => false,
        },
    decreases oks.len(),
{
    if oks.len() > 0 {
        law_a_terminal_is_taken_over_wholly_or_not_at_all(oks.drop_last());
    }
}

/// A terminal that was given back is as it was before.
pub proof fn law_a_terminal_is_given_back_as_it_was(oks: Seq<bool>)
    ensures
        closing(oks).0 == Step::Closed ==> closing(oks).1 == plain(),
        oks.len() >= 2 ==> closing(oks).0 == Step::Closed || closing(oks).0 == Step::NotClosed,
        match closing(oks).0 {
            Step::DisableRaw => oks.len() == 0,
            Step::LeaveAlternate => oks.len() == 1 && closing(oks).1 == (Modes {
                raw: false,
                alternate: true,
            }),
            Step::Closed => oks.len() >= 2,
            Step::NotClosed => oks.len() >= 1,
            _ => false,
        },
    decreases oks.len(),
{
    if oks.len() > 0 {
        law_a_terminal_is_given_back_as_it_was(oks.drop_last());
    }
}

/// A terminal that is taken over, drawn on and given back.
pub struct Renderer {
    step: Step,
}

impl Renderer {
    /// What is to be done next.
    pub closed spec fn next(&self) -> Step {
        self.step
    }

    /// A terminal that is to be opened.
    pub fn new() -> (r: Self)
        ensures
            r.next() == Step::Open,
    {
        Renderer { step: Step::Open }
    }

    /// What is to be done next.
    pub fn step(&self) -> (r: Step)
        ensures
            r == self.next(),
    {
        self.step
    }

    /// Goes on after a step that worked, or did not. Where taking the terminal over fails,
    /// what was done is undone first.
    pub fn advance(&mut self, ok: bool)
        ensures
            final(self).next() == following(old(self).next(), ok),
    {
        self.step = match (self.step, ok) {
            (Step::Open, true) => Step::EnableRaw,
            (Step::Open, false) => Step::NotOpened,
            (Step::EnableRaw, true) => Step::EnterAlternate,
            (Step::EnableRaw, false) => Step::NotOpened,
            (Step::EnterAlternate, true) => Step::Draw,
            (Step::EnterAlternate, false) => Step::RevertRaw,
            (Step::RevertRaw, _) => Step::NotOpened,
            (Step::DisableRaw, true) => Step::LeaveAlternate,
            (Step::DisableRaw, false) => Step::NotClosed,
            (Step::LeaveAlternate, true) => Step::Closed,
            (Step::LeaveAlternate, false) => Step::NotClosed,
            (step, _) => step,
        };
    }

    /// Starts to give the terminal back, where it was taken over.
    pub fn deinit(&mut self)
        ensures
            final(self).next() == if old(self).next() == Step::Draw {
                Step::DisableRaw
            } else {
                old(self).next()
            },
    {
        if let Step::Draw = self.step {
            self.step = Step::DisableRaw;
        }
    }
}

/// A terminal is taken over exactly where it can be opened, put into raw mode and shown the
/// alternate screen, one after the other; where one of them fails, it is not.
pub proof fn law_when_a_terminal_is_taken_over(oks: Seq<bool>)
    requires
        oks.len() >= 4,
    ensures
        opening(oks).0 == Step::Draw <==> oks[0] && oks[1] && oks[2],
        opening(oks).0 == Step::NotOpened <==> !(oks[0] && oks[1] && oks[2]),
    decreases oks.len(),
{
    law_a_terminal_is_taken_over_wholly_or_not_at_all(oks);
    if oks.len() > 4 {
        law_when_a_terminal_is_taken_over(oks.drop_last());
    } else {
        reveal_with_fuel(opening, 5);
        assert(oks.drop_last().last() == oks[2]);
        assert(oks.drop_last().drop_last().last() == oks[1]);
        assert(oks.drop_last().drop_last().drop_last().last() == oks[0]);
        assert(oks.drop_last().drop_last().drop_last().drop_last().len() == 0);
    }
}

/// A terminal is given back exactly where raw mode can be switched off and the alternate
/// screen can be left, one after the other.
pub proof fn law_when_a_terminal_is_given_back(oks: Seq<bool>)
    requires
        oks.len() >= 2,
    ensures
        closing(oks).0 == Step::Closed <==> oks[0] && oks[1],
        closing(oks).0 == Step::NotClosed <==> !(oks[0] && oks[1]),
    decreases oks.len(),
{
    law_a_terminal_is_given_back_as_it_was(oks);
    if oks.len() > 2 {
        law_when_a_terminal_is_given_back(oks.drop_last());
    } else {
        reveal_with_fuel(closing, 3);
        assert(oks.drop_last().last() == oks[0]);
        assert(oks.drop_last().drop_last().len() == 0);
    }
}

/// Nothing is done any more with a terminal that was given back, or could not be taken over
/// or given back, and one that can be drawn on waits.
pub proof fn law_what_is_over_stays_over(step: Step, ok: bool)
    requires
        step == Step::Draw || step == Step::Closed || step == Step::NotOpened || step
            == Step::NotClosed,
    ensures
        following(step, ok) == step,
{
}

/// The steps go in their order, and none is left out: raw mode is switched on only in a
/// terminal that was opened, the alternate screen is shown only in raw mode, and raw mode is
/// switched off again where the alternate screen cannot be had.
pub proof fn law_steps_go_in_their_order(step: Step, ok: bool)
    ensures
        following(step, ok) == Step::EnableRaw ==> ok && step == Step::Open || step
            == Step::EnableRaw,
        following(step, ok) == Step::EnterAlternate ==> ok && step == Step::EnableRaw || step
            == Step::EnterAlternate,
        following(step, ok) == Step::Draw ==> ok && step == Step::EnterAlternate || step
            == Step::Draw,
        following(step, ok) == Step::RevertRaw <==> !ok && step == Step::EnterAlternate,
        following(step, ok) == Step::LeaveAlternate <==> ok && step == Step::DisableRaw,
        following(step, ok) == Step::Closed ==> ok && step == Step::LeaveAlternate || step
            == Step::Closed,
        following(step, ok) != Step::Open,
        following(step, ok) != Step::DisableRaw,
{
}

} // verus!
