//! Small things that the parts of a call share.
use core::marker::PhantomData;
use std::rc::Rc;
use vstd::prelude::*;

verus! {

/// A switch, such as the one that mutes the microphone. It starts switched off.
#[derive(Debug)]
pub struct ToggleHandle {
    on: bool,
}

impl ToggleHandle {
    /// Whether the switch is on.
    pub closed spec fn on(&self) -> bool {
        self.on
    }

    /// A switch that is off.
    pub fn new() -> (r: Self)
        ensures
            !r.on(),
    {
        ToggleHandle { on: false }
    }

    /// Whether the switch is on.
    pub fn is_on(&self) -> (r: bool)
        ensures
            r == self.on(),
    {
        self.on
    }

    /// Turns the switch over.
    pub fn toggle(&mut self)
        ensures
            turned_over(*old(self), *final(self)),
            final(self).on() == !old(self).on(),
    {
        self.on = !self.on;
    }
}

/// Whether a switch is on after one turn exactly where it was off before.
pub open spec fn turned_over(before: ToggleHandle, after: ToggleHandle) -> bool {
    after.on() == !before.on()
}

/// Whether `states` are those of a switch that is turned over from each to the next.
pub open spec fn are_turns(states: Seq<ToggleHandle>) -> bool {
    forall|i: int, j: int|
        #![trigger states[i], states[j]]
        0 <= i && j == i + 1 && j < states.len() ==> turned_over(states[i], states[j])
}

/// After an even number of turns a switch is where it was, and after an odd number it is
/// not.
pub proof fn law_turns_count_by_twos(states: Seq<ToggleHandle>, turns: int)
    requires
        are_turns(states),
        0 <= turns < states.len(),
    ensures
        states[turns].on() == if turns % 2 == 0 {
            states[0].on()
        } else {
            !states[0].on()
        },
    decreases turns,
{
    if turns > 0 {
        law_turns_count_by_twos(states, turns - 1);
        assert(turned_over(states[turns - 1], states[turns]));
    }
}

/// A switch that was turned over twice is where it was.
pub proof fn law_toggling_twice_changes_nothing(
    before: ToggleHandle,
    between: ToggleHandle,
    after: ToggleHandle,
)
    requires
        turned_over(before, between),
        turned_over(between, after),
    ensures
        after.on() == before.on(),
{
}

/// A value that does not leave the thread that made it.
#[derive(Copy, PartialEq, Eq, PartialOrd, Ord, Default, Hash, Debug)]
pub struct ThreadBound<T> {
    value: T,
    marker: PhantomData<Rc<()>>,
}

impl<T: Clone> Clone for ThreadBound<T> {
    fn clone(&self) -> (r: Self)
        ensures
            cloned::<T>(self@, r@),
    {
        ThreadBound { value: self.value.clone(), marker: PhantomData }
    }
}

impl<T> View for ThreadBound<T> {
    type V = T;

    /// The value.
    closed spec fn view(&self) -> T {
        self.value
    }
}

impl<T> ThreadBound<T> {
    /// Binds `value` to this thread.
    pub fn new(value: T) -> (r: Self)
        ensures
            r@ == value,
    {
        ThreadBound { value, marker: PhantomData }
    }
}

impl<T> core::ops::Deref for ThreadBound<T> {
    type Target = T;

    fn deref(&self) -> (r: &T)
        ensures
            *r == self@,
    {
        &self.value
    }
}

} // verus!
