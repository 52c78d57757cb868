//! Something that is done at the end, whatever happens until then.
use crate::report::Report;
use vstd::prelude::*;

verus! {

/// An action that is kept until it is run or let go.
pub struct Deferer<F: FnOnce() -> Result<(), Report>> {
    f: Option<F>,
}

impl<F: FnOnce() -> Result<(), Report>> Deferer<F> {
    /// Whether the action is still to be run.
    pub closed spec fn is_pending(&self) -> bool {
        self.f is Some
    }

    /// The action that is still to be run.
    pub closed spec fn action(&self) -> F {
        self.f->0
    }

    /// Keeps an action.
    pub fn new(f: F) -> (r: Self)
        ensures
            r.is_pending(),
            r.action() == f,
    {
        Deferer { f: Some(f) }
    }

    /// Runs the action, unless it was run or let go before, and gives back what is to be
    /// reported where it failed.
    pub fn run(&mut self) -> (r: Option<Report>)
        requires
            old(self).is_pending() ==> call_requires(old(self).action(), ()),
        ensures
            !final(self).is_pending(),
            !old(self).is_pending() ==> r is None,
            old(self).is_pending() ==> match r {
                Some(error) => call_ensures(
                    old(self).action(),
                    (),
                    Err::<(), Report>(error),
                ),
                None => call_ensures(old(self).action(), (), Ok::<(), Report>(())),
            },
    {
        match self.f.take() {
            Some(f) => {
                let end = f();
                match end {
                    Ok(done) => {
                        assert(done == ());
                        None
                    },
                    Err(error) => Some(error),
                }
            },
            None => None,
        }
    }

    /// Lets the action go, so that it is not run.
    pub fn forget(&mut self)
        ensures
            !final(self).is_pending(),
    {
        self.f = None;
    }
}

} // verus!
