//! A whole run: the files one after the other, each through its steps.
//!
//! A `Run` holds what was asked for and how far the work has come. It hands
//! out one `Task` at a time; the caller carries the task out, reports the
//! event, and gets back what is to be written. The files are taken in the
//! order given, each to its end before the next begins, and a failure never
//! ends the run early.

use crate::args::texts;
use crate::args::Invocation;
use crate::confirm::confirmation_prompt;
use crate::confirm::prompt_text;
use crate::options::Options;
use crate::path::resolve_path;
use crate::path::resolved;
use crate::remove::next_step;
use crate::remove::step;
use crate::remove::Event;
use crate::remove::Outcome;
use crate::remove::Step;
use crate::report::counts_as_failure;
use crate::report::notice_for;
use crate::report::notice_text;
use crate::report::report_for;
use crate::report::report_text;
use crate::report::settle;
use crate::report::settled;
use crate::report::FAILURE;
use crate::report::SUCCESS;
use vstd::prelude::*;

verus! {

/// What the caller is to do next.
#[derive(Debug, PartialEq, Eq)]
pub enum Task {
    /// Look up the file at this path.
    Lookup(String),
    /// Write this question, without a line break, and read one line.
    Ask(String),
    /// Delete the file at this path.
    Delete(String),
    /// End the run with this exit status.
    Exit(i32),
}

/// What is to be written after an event: at most one line for each stream,
/// given without its line break.
#[derive(Debug, PartialEq, Eq)]
pub struct Output {
    pub stdout: Option<String>,
    pub stderr: Option<String>,
}

/// A run as a plain value.
pub struct RunState {
    pub options: Options,
    pub operands: Seq<Seq<char>>,
    pub base: Seq<char>,
    /// How many files are dealt with.
    pub position: int,
    /// The step at hand for the file at `position`.
    pub at: Step,
    pub status: int,
}

impl RunState {
    /// The step at hand is never `Done`: a file that is done is counted at
    /// once, and the next one begins.
    pub open spec fn wf(self) -> bool {
        &&& 0 <= self.position <= self.operands.len()
        &&& !(self.at is Done)
        &&& self.status == SUCCESS || self.status == FAILURE
    }

    /// The run as it begins.
    pub open spec fn initial(options: Options, operands: Seq<Seq<char>>, base: Seq<char>) -> RunState {
        RunState { options, operands, base, position: 0, at: Step::Lookup, status: SUCCESS as int }
    }

    pub open spec fn finished(self) -> bool {
        self.position >= self.operands.len()
    }

    /// The operand at hand, as it was given.
    pub open spec fn operand(self) -> Seq<char> {
        self.operands[self.position]
    }

    /// The path of the file at hand.
    pub open spec fn path(self) -> Seq<char> {
        resolved(self.operand(), self.base)
    }

    /// How the file at hand ends, if `event` ends it.
    pub open spec fn outcome_of(self, event: Event) -> Option<Outcome> {
        if self.finished() {
            None
        } else {
            match next_step(self.options, self.at, event) {
                Step::Done(outcome) => Some(outcome),
                _ => None,
            }
        }
    }

    /// The run once `event` is reported.
    pub open spec fn advanced(self, event: Event) -> RunState {
        if self.finished() {
            self
        } else {
            match next_step(self.options, self.at, event) {
                Step::Done(outcome) => RunState {
                    position: self.position + 1,
                    at: Step::Lookup,
                    status: settled(self.status, self.options, outcome),
                    ..self
                },
                next => RunState { at: next, ..self },
            }
        }
    }
}

impl Task {
    /// Whether this is the task that the run `state` calls for.
    pub open spec fn fits(self, state: RunState) -> bool {
        match self {
            Task::Exit(status) => state.finished() && status == state.status,
            Task::Lookup(path) => !state.finished() && state.at == Step::Lookup && path@
                == state.path(),
            Task::Ask(question) => !state.finished() && state.at == Step::Ask && question@
                == prompt_text(state.path()),
            Task::Delete(path) => !state.finished() && state.at == Step::Delete && path@
                == state.path(),
        }
    }
}

/// A run in progress.
#[derive(Debug)]
pub struct Run {
    options: Options,
    operands: Vec<String>,
    base: String,
    position: usize,
    at: Step,
    status: i32,
}

impl View for Run {
    type V = RunState;

    closed spec fn view(&self) -> RunState {
        RunState {
            options: self.options,
            operands: texts(self.operands@),
            base: self.base@,
            position: self.position as int,
            at: self.at,
            status: self.status as int,
        }
    }
}

impl Run {
    #[verifier::type_invariant]
    closed spec fn sound(self) -> bool {
        self@.wf()
    }

    /// Begins a run over the files of `invocation`, resolved against `base`.
    pub fn new(invocation: Invocation, base: String) -> (run: Run)
        ensures
            run@ == RunState::initial(invocation.options, texts(invocation.operands@), base@),
            run@.wf(),
    {
        Run {
            options: invocation.options,
            operands: invocation.operands,
            base,
            position: 0,
            at: Step::Lookup,
            status: SUCCESS,
        }
    }

    /// Whether every file is dealt with.
    pub fn is_finished(&self) -> (finished: bool)
        ensures
            finished == self@.finished(),
            self@.wf(),
    {
        proof {
            use_type_invariant(self);
        }
        self.position >= self.operands.len()
    }

    /// The exit status as it stands.
    pub fn status(&self) -> (status: i32)
        ensures
            status == self@.status,
            status == SUCCESS || status == FAILURE,
    {
        proof {
            use_type_invariant(self);
        }
        self.status
    }

    /// What is to be done next.
    pub fn task(&self) -> (task: Task)
        ensures
            task.fits(self@),
            self@.wf(),
    {
        proof {
            use_type_invariant(self);
        }
        if self.position >= self.operands.len() {
            return Task::Exit(self.status);
        }
        let operand = &self.operands[self.position];
        assert(operand@ == self@.operand());
        let path = resolve_path(operand.as_str(), self.base.as_str());
        match self.at {
            Step::Lookup => Task::Lookup(path),
            Step::Ask => Task::Ask(confirmation_prompt(path.as_str())),
            Step::Delete => Task::Delete(path),
            // A run never rests on `Done`; this arm is not reached.
            Step::Done(_) => Task::Exit(self.status),
        }
    }

    /// Takes in what came of the task at hand. `description` is the system's
    /// account of what went wrong, where the event is a failure; it is not
    /// read otherwise.
    ///
    /// A notice is written for a file that was removed, under `verbose`; a
    /// report for a removal that failed, unless `force` is set, and the exit
    /// status is then `FAILURE` for the rest of the run.
    pub fn advance(&mut self, event: Event, description: &str) -> (output: Output)
        ensures
            final(self)@ == old(self)@.advanced(event),
            final(self)@.wf(),
            output.stdout is Some <==> old(self)@.outcome_of(event) == Some(Outcome::Removed)
                && old(self)@.options.is_verbose(),
            output.stdout matches Some(line) ==> line@ == notice_text(old(self)@.path()),
            output.stderr is Some <==> (old(self)@.outcome_of(event) matches Some(outcome)
                && counts_as_failure(old(self)@.options, outcome)),
            output.stderr matches Some(line) ==> line@ == report_text(
                old(self)@.operand(),
                description@,
            ),
    {
        proof {
            use_type_invariant(&*self);
        }
        if self.position >= self.operands.len() {
            return Output { stdout: None, stderr: None };
        }
        match step(&self.options, self.at, event) {
            Step::Done(outcome) => {
                let operand = &self.operands[self.position];
                assert(operand@ == old(self)@.operand());
                let path = resolve_path(operand.as_str(), self.base.as_str());
                let stdout = notice_for(&self.options, outcome, path.as_str());
                let stderr = report_for(&self.options, outcome, operand.as_str(), description);
                self.status = settle(self.status, &self.options, outcome);
                self.position = self.position + 1;
                self.at = Step::Lookup;
                Output { stdout, stderr }
            },
            next => {
                self.at = next;
                Output { stdout: None, stderr: None }
            },
        }
    }
}

/// A run stays well-formed, whatever is reported.
pub proof fn lemma_advanced_wf(state: RunState, event: Event)
    requires
        state.wf(),
    ensures
        state.advanced(event).wf(),
{
}

/// The files are taken in the order given: an event leaves the run at the
/// file at hand or moves it to the next one, and it moves on exactly when the
/// event ends the file at hand. What was asked for never changes.
pub proof fn lemma_files_in_order(state: RunState, event: Event)
    requires
        state.wf(),
    ensures
        state.advanced(event).position == state.position + if state.outcome_of(event) is Some {
            1int
        } else {
            0int
        },
        state.advanced(event).options == state.options,
        state.advanced(event).operands == state.operands,
        state.advanced(event).base == state.base,
{
}

/// The exit status starts at `SUCCESS`, turns to `FAILURE` exactly when a
/// removal fails and counts, and never turns back.
pub proof fn lemma_status_never_resets(state: RunState, event: Event)
    requires
        state.wf(),
    ensures
        state.advanced(event).status == if state.outcome_of(event) matches Some(outcome)
            && counts_as_failure(state.options, outcome) {
            FAILURE as int
        } else {
            state.status
        },
        state.status == FAILURE ==> state.advanced(event).status == FAILURE,
{
}

/// Under `force` no event changes the exit status.
pub proof fn lemma_force_keeps_success(state: RunState, event: Event)
    requires
        state.wf(),
        state.options.is_force(),
    ensures
        state.advanced(event).status == state.status,
{
}

} // verus!
