//! The three switches of a run, with the rule that asking wins over forcing.

use vstd::prelude::*;

verus! {

/// The switches of one run. A value never has `interactive` and `force` set
/// together: where both were requested, `interactive` stays and `force` is
/// dropped.
#[derive(Clone, Copy, Debug, PartialEq, Eq)]
pub struct Options {
    force: bool,
    interactive: bool,
    verbose: bool,
}

impl Options {
    #[verifier::type_invariant]
    closed spec fn consistent(self) -> bool {
        self.interactive ==> !self.force
    }

    /// Whether a missing file counts as removed and failures go unreported.
    pub closed spec fn is_force(&self) -> bool {
        self.force
    }

    /// Whether each removal is confirmed first.
    pub closed spec fn is_interactive(&self) -> bool {
        self.interactive
    }

    /// Whether each removal is announced.
    pub closed spec fn is_verbose(&self) -> bool {
        self.verbose
    }

    /// The switches in effect when these three were requested.
    pub fn requested(force: bool, interactive: bool, verbose: bool) -> (o: Options)
        ensures
            o.is_force() == (force && !interactive),
            o.is_interactive() == interactive,
            o.is_verbose() == verbose,
            o.is_interactive() ==> !o.is_force(),
    {
        Options { force: force && !interactive, interactive, verbose }
    }

    #[verifier::when_used_as_spec(is_force)]
    pub fn force(&self) -> (b: bool)
        ensures
            b == self.is_force(),
            b ==> !self.is_interactive(),
    {
        proof {
            use_type_invariant(self);
        }
        self.force
    }

    #[verifier::when_used_as_spec(is_interactive)]
    pub fn interactive(&self) -> (b: bool)
        ensures
            b == self.is_interactive(),
            b ==> !self.is_force(),
    {
        proof {
            use_type_invariant(self);
        }
        self.interactive
    }

    #[verifier::when_used_as_spec(is_verbose)]
    pub fn verbose(&self) -> (b: bool)
        ensures
            b == self.is_verbose(),
    {
        self.verbose
    }
}

} // verus!
