//! Removing one file, as a sequence of decisions.
//!
//! The library never touches the filesystem or the terminal. It says what is
//! to be done next (`Step`), the caller does it and reports what came of it
//! (`Event`), and so on until the step is `Done`. At most one lookup, one
//! question and one deletion happen for a file, in that order.

use crate::confirm::is_affirmative;
use crate::confirm::lowercased;
use crate::confirm::says_yes;
use crate::confirm::trimmed;
use crate::options::Options;
use vstd::prelude::*;

verus! {

/// Where a removal failed.
#[derive(Clone, Copy, Debug, PartialEq, Eq, Structural)]
pub enum RemoveError {
    /// The file's metadata could not be read: no such file, no permission.
    LookupFailure,
    /// The question could not be put, or the answer could not be read.
    PromptFailure,
    /// The file could not be deleted.
    DeleteFailure,
}

/// How the removal of one file ended.
#[derive(Clone, Copy, Debug, PartialEq, Eq, Structural)]
pub enum Outcome {
    /// The file was deleted.
    Removed,
    /// Nothing was deleted and nothing went wrong: the user declined, or
    /// the file was missing and `force` was set.
    Skipped,
    /// The removal failed.
    Failed(RemoveError),
}

/// What is to be done next for a file.
#[derive(Clone, Copy, Debug, PartialEq, Eq, Structural)]
pub enum Step {
    /// Look the file up.
    Lookup,
    /// Put the question and read one line.
    Ask,
    /// Delete the file.
    Delete,
    /// Nothing more.
    Done(Outcome),
}

/// What came of a step.
#[derive(Clone, Copy, Debug, PartialEq, Eq, Structural)]
pub enum Event {
    /// The lookup found the file.
    Found,
    /// The lookup found that there is no such file.
    NotFound,
    /// The lookup failed for another reason.
    LookupFailed,
    /// A line was read, and it allows the removal or does not. The end of
    /// input reads as an empty line.
    Answered(bool),
    /// The question could not be put, or no line could be read.
    AskFailed,
    /// The file is gone.
    Deleted,
    /// The file could not be deleted.
    DeleteFailed,
}

/// The step that follows a lookup.
///
/// A file that is there is asked about where `interactive` is set, and
/// deleted at once where it is not. A missing file is passed over in silence
/// under `force` and is a failure otherwise. Any other failure of the lookup
/// is a failure under `force` too.
pub open spec fn after_lookup(options: Options, event: Event) -> Step {
    match event {
        Event::Found => if options.is_interactive() {
            Step::Ask
        } else {
            Step::Delete
        },
        Event::NotFound => if options.is_force() {
            Step::Done(Outcome::Skipped)
        } else {
            Step::Done(Outcome::Failed(RemoveError::LookupFailure))
        },
        Event::LookupFailed => Step::Done(Outcome::Failed(RemoveError::LookupFailure)),
        _ => Step::Lookup,
    }
}

/// The step that follows the question: a yes deletes, any other answer
/// leaves the file alone.
pub open spec fn after_ask(event: Event) -> Step {
    match event {
        Event::Answered(yes) => if yes {
            Step::Delete
        } else {
            Step::Done(Outcome::Skipped)
        },
        Event::AskFailed => Step::Done(Outcome::Failed(RemoveError::PromptFailure)),
        _ => Step::Ask,
    }
}

/// The step that follows the deletion.
pub open spec fn after_delete(event: Event) -> Step {
    match event {
        Event::Deleted => Step::Done(Outcome::Removed),
        Event::DeleteFailed => Step::Done(Outcome::Failed(RemoveError::DeleteFailure)),
        _ => Step::Delete,
    }
}

/// The step that follows `at` once `event` is reported. An event that does
/// not answer the step at hand changes nothing, and nothing follows `Done`.
pub open spec fn next_step(options: Options, at: Step, event: Event) -> Step {
    match at {
        Step::Lookup => after_lookup(options, event),
        Step::Ask => after_ask(event),
        Step::Delete => after_delete(event),
        Step::Done(outcome) => at,
    }
}

/// The first step for every file.
pub fn first_step() -> (at: Step)
    ensures
        at == Step::Lookup,
{
    Step::Lookup
}

/// Decides what follows `at` once `event` is reported. Under `force` the
/// question is never arrived at.
pub fn step(options: &Options, at: Step, event: Event) -> (next: Step)
    ensures
        next == next_step(*options, at, event),
        options.is_force() && at != Step::Ask ==> next != Step::Ask,
{
    match at {
        Step::Lookup => match event {
            Event::Found => if options.interactive() {
                Step::Ask
            } else {
                Step::Delete
            },
            Event::NotFound => if options.force() {
                Step::Done(Outcome::Skipped)
            } else {
                Step::Done(Outcome::Failed(RemoveError::LookupFailure))
            },
            Event::LookupFailed => Step::Done(Outcome::Failed(RemoveError::LookupFailure)),
            _ => at,
        },
        Step::Ask => match event {
            Event::Answered(yes) => if yes {
                Step::Delete
            } else {
                Step::Done(Outcome::Skipped)
            },
            Event::AskFailed => Step::Done(Outcome::Failed(RemoveError::PromptFailure)),
            _ => at,
        },
        Step::Delete => match event {
            Event::Deleted => Step::Done(Outcome::Removed),
            Event::DeleteFailed => Step::Done(Outcome::Failed(RemoveError::DeleteFailure)),
            _ => at,
        },
        Step::Done(_) => at,
    }
}

/// The event for a line read in answer to the question.
pub fn answered(line: &str) -> (event: Event)
    ensures
        event == Event::Answered(says_yes(lowercased(trimmed(line@)))),
{
    Event::Answered(is_affirmative(line))
}

/// How far a step is along the way: lookup, question, deletion, end.
pub open spec fn rank(at: Step) -> nat {
    match at {
        Step::Lookup => 0,
        Step::Ask => 1,
        Step::Delete => 2,
        Step::Done(_) => 3,
    }
}

/// A step is never gone back to: an event leaves the step as it is or leads
/// further along. So a file is looked up, asked about and deleted at most
/// once each.
pub proof fn lemma_step_moves_forward(options: Options, at: Step, event: Event)
    ensures
        next_step(options, at, event) == at || rank(next_step(options, at, event)) > rank(at),
{
}

/// The question is put only under `interactive`, and only for a file that
/// the lookup found.
pub proof fn lemma_asks_only_when_interactive(options: Options, at: Step, event: Event)
    requires
        at != Step::Ask,
        next_step(options, at, event) == Step::Ask,
    ensures
        options.is_interactive(),
        at == Step::Lookup,
        event == Event::Found,
{
}

/// A deletion is called for only once the file was found, and under
/// `interactive` only once the answer was yes.
pub proof fn lemma_deletes_only_when_allowed(options: Options, at: Step, event: Event)
    requires
        at != Step::Delete,
        next_step(options, at, event) == Step::Delete,
    ensures
        at == Step::Lookup ==> event == Event::Found && !options.is_interactive(),
        at == Step::Ask ==> event == Event::Answered(true),
        at == Step::Lookup || at == Step::Ask,
{
}

/// A file is reported as removed only once its deletion succeeded.
pub proof fn lemma_removed_only_when_deleted(options: Options, at: Step, event: Event)
    requires
        !(at is Done),
        next_step(options, at, event) == Step::Done(Outcome::Removed),
    ensures
        at == Step::Delete,
        event == Event::Deleted,
{
}

} // verus!
