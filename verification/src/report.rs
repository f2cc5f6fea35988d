//! What a run says and how it ends: the texts written for the user, and the
//! exit status gathered over the files.

use crate::args::ParseError;
use crate::options::Options;
use crate::remove::Outcome;
use vstd::prelude::*;
use vstd::string::StringExecFns;

verus! {

/// The exit status of a run in which nothing failed.
pub const SUCCESS: i32 = 0;

/// The exit status of a run that was turned down, or in which a removal
/// failed and was reported.
pub const FAILURE: i32 = 1;

/// `String::push`, which puts one character at the end of a string.
pub assume_specification[ String::push ](text: &mut String, c: char)
    ensures
        final(text)@ == old(text)@.push(c),
;

/// The help text, line by line, each line closed by a line break.
pub open spec fn usage_text() -> Seq<char> {
    "Usage: rm [OPTION]... FILE...\n"@ + "Remove (unlink) the FILE(s).\n"@ + "\n"@
        + "  -f    Attempt to remove the files without prompting for confirmation\n"@
        + "  -i    Request confirmation before attempting to remove each file\n"@
        + "  -v    Be verbose when deleting files, showing them as they are removed\n"@
}

/// The help text.
pub fn usage() -> (text: String)
    ensures
        text@ == usage_text(),
{
    String::from_str("Usage: rm [OPTION]... FILE...\n").concat(
        "Remove (unlink) the FILE(s).\n",
    ).concat("\n").concat(
        "  -f    Attempt to remove the files without prompting for confirmation\n",
    ).concat("  -i    Request confirmation before attempting to remove each file\n").concat(
        "  -v    Be verbose when deleting files, showing them as they are removed\n",
    )
}

/// What is written when a command line is turned down.
pub open spec fn complaint_text(error: ParseError) -> Seq<char> {
    match error {
        ParseError::NoArguments => usage_text(),
        ParseError::InvalidOption(c) => "rm: invalid option -- '"@.push(c) + "'\n"@
            + usage_text(),
        ParseError::MissingOperand => "rm: missing operand\n"@,
    }
}

/// What is written, on the error stream, when a command line is turned
/// down. The run then ends with `FAILURE`, and no file is touched.
pub fn complaint(error: ParseError) -> (text: String)
    ensures
        text@ == complaint_text(error),
{
    match error {
        ParseError::NoArguments => usage(),
        ParseError::InvalidOption(c) => {
            let mut text = String::from_str("rm: invalid option -- '");
            text.push(c);
            text.append("'\n");
            let help = usage();
            text.append(help.as_str());
            text
        },
        ParseError::MissingOperand => String::from_str("rm: missing operand\n"),
    }
}

/// The line that announces the removal of the file at `path`.
pub open spec fn notice_text(path: Seq<char>) -> Seq<char> {
    "removed '"@ + path + "'"@
}

/// The line that reports that `operand` could not be removed.
pub open spec fn report_text(operand: Seq<char>, description: Seq<char>) -> Seq<char> {
    "rm: cannot remove '"@ + operand + "': "@ + description
}

/// The line that announces a removal.
pub fn removal_notice(path: &str) -> (line: String)
    ensures
        line@ == notice_text(path@),
{
    String::from_str("removed '").concat(path).concat("'")
}

/// The line that reports a failed removal: the operand as it was given, and
/// the system's description of what went wrong.
pub fn failure_report(operand: &str, description: &str) -> (line: String)
    ensures
        line@ == report_text(operand@, description@),
{
    String::from_str("rm: cannot remove '").concat(operand).concat("': ").concat(description)
}

/// A failed removal counts, and is reported, unless `force` is set.
pub open spec fn counts_as_failure(options: Options, outcome: Outcome) -> bool {
    outcome is Failed && !options.is_force()
}

/// What is written on the output stream once a file is dealt with: the
/// notice of its removal, where it was removed and `verbose` is set.
pub fn notice_for(options: &Options, outcome: Outcome, path: &str) -> (line: Option<String>)
    ensures
        line is Some <==> outcome == Outcome::Removed && options.is_verbose(),
        line matches Some(text) ==> text@ == notice_text(path@),
{
    match outcome {
        Outcome::Removed => if options.verbose() {
            Some(removal_notice(path))
        } else {
            None
        },
        _ => None,
    }
}

/// What is written on the error stream once a file is dealt with: the
/// report of the failure, where it counts.
pub fn report_for(options: &Options, outcome: Outcome, operand: &str, description: &str) -> (line:
    Option<String>)
    ensures
        line is Some <==> counts_as_failure(*options, outcome),
        line matches Some(text) ==> text@ == report_text(operand@, description@),
{
    match outcome {
        Outcome::Failed(_) => if options.force() {
            None
        } else {
            Some(failure_report(operand, description))
        },
        _ => None,
    }
}

/// The exit status once one more file is dealt with: `FAILURE` where its
/// removal failed and counts, else what it was.
pub open spec fn settled(status: int, options: Options, outcome: Outcome) -> int {
    if counts_as_failure(options, outcome) {
        FAILURE as int
    } else {
        status
    }
}

/// The exit status of a run over files whose removals ended in `outcomes`.
pub open spec fn status_after(options: Options, outcomes: Seq<Outcome>) -> int
    decreases outcomes.len(),
{
    if outcomes.len() == 0 {
        SUCCESS as int
    } else {
        settled(status_after(options, outcomes.drop_last()), options, outcomes.last())
    }
}

/// Takes one more outcome into the exit status.
pub fn settle(status: i32, options: &Options, outcome: Outcome) -> (next: i32)
    ensures
        next == settled(status as int, *options, outcome),
{
    match outcome {
        Outcome::Failed(_) => if options.force() {
            status
        } else {
            FAILURE
        },
        _ => status,
    }
}

/// A run ends with `FAILURE` exactly when some removal failed and counted,
/// and with `SUCCESS` otherwise: once a failure is in, no later file takes it
/// out again.
pub proof fn lemma_status_after(options: Options, outcomes: Seq<Outcome>)
    ensures
        status_after(options, outcomes) == if exists|i: int|
            0 <= i < outcomes.len() && counts_as_failure(options, #[trigger] outcomes[i]) {
            FAILURE as int
        } else {
            SUCCESS as int
        },
    decreases outcomes.len(),
{
    if outcomes.len() > 0 {
        let init = outcomes.drop_last();
        lemma_status_after(options, init);
        if exists|i: int| 0 <= i < init.len() && counts_as_failure(options, #[trigger] init[i]) {
            let i = choose|i: int|
                0 <= i < init.len() && counts_as_failure(options, #[trigger] init[i]);
            assert(counts_as_failure(options, outcomes[i]));
        }
        if counts_as_failure(options, outcomes.last()) {
            assert(counts_as_failure(options, outcomes[outcomes.len() - 1]));
        }
        if exists|i: int|
            0 <= i < outcomes.len() && counts_as_failure(options, #[trigger] outcomes[i]) {
            let i = choose|i: int|
                0 <= i < outcomes.len() && counts_as_failure(options, #[trigger] outcomes[i]);
            if i < init.len() {
                assert(counts_as_failure(options, init[i]));
            }
        }
    }
}

} // verus!
