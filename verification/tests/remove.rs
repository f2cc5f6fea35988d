use rm_core::options::Options;
use rm_core::remove::{first_step, step, Event, Outcome, RemoveError, Step};
use rm_core::report::{
    complaint, failure_report, notice_for, removal_notice, report_for, settle, usage, FAILURE,
    SUCCESS,
};
use rm_core::args::ParseError;

const EVENTS: [Event; 8] = [
    Event::Found,
    Event::NotFound,
    Event::LookupFailed,
    Event::Answered(true),
    Event::Answered(false),
    Event::AskFailed,
    Event::Deleted,
    Event::DeleteFailed,
];

const STEPS: [Step; 8] = [
    Step::Lookup,
    Step::Ask,
    Step::Delete,
    Step::Done(Outcome::Removed),
    Step::Done(Outcome::Skipped),
    Step::Done(Outcome::Failed(RemoveError::LookupFailure)),
    Step::Done(Outcome::Failed(RemoveError::PromptFailure)),
    Step::Done(Outcome::Failed(RemoveError::DeleteFailure)),
];

fn all_options() -> Vec<Options> {
    let mut all = Vec::new();
    for force in [false, true] {
        for interactive in [false, true] {
            for verbose in [false, true] {
                all.push(Options::requested(force, interactive, verbose));
            }
        }
    }
    all
}

fn rank(at: Step) -> u8 {
    match at {
        Step::Lookup => 0,
        Step::Ask => 1,
        Step::Delete => 2,
        Step::Done(_) => 3,
    }
}

#[test]
fn every_file_begins_with_the_lookup() {
    assert_eq!(first_step(), Step::Lookup);
}

#[test]
fn a_found_file_is_deleted_or_asked_about() {
    let plain = Options::requested(false, false, false);
    let forced = Options::requested(true, false, true);
    let asking = Options::requested(false, true, false);
    assert_eq!(step(&plain, Step::Lookup, Event::Found), Step::Delete);
    assert_eq!(step(&forced, Step::Lookup, Event::Found), Step::Delete);
    assert_eq!(step(&asking, Step::Lookup, Event::Found), Step::Ask);
}

#[test]
fn a_missing_file_fails_unless_forced() {
    let plain = Options::requested(false, false, false);
    let forced = Options::requested(true, false, false);
    let asking = Options::requested(true, true, false);
    let failed = Step::Done(Outcome::Failed(RemoveError::LookupFailure));
    assert_eq!(step(&plain, Step::Lookup, Event::NotFound), failed);
    assert_eq!(step(&forced, Step::Lookup, Event::NotFound), Step::Done(Outcome::Skipped));
    assert_eq!(step(&asking, Step::Lookup, Event::NotFound), failed);
}

#[test]
fn another_lookup_failure_fails_even_when_forced() {
    let failed = Step::Done(Outcome::Failed(RemoveError::LookupFailure));
    for options in all_options() {
        assert_eq!(step(&options, Step::Lookup, Event::LookupFailed), failed);
    }
}

#[test]
fn the_answer_decides() {
    for options in all_options() {
        assert_eq!(step(&options, Step::Ask, Event::Answered(true)), Step::Delete);
        assert_eq!(step(&options, Step::Ask, Event::Answered(false)), Step::Done(Outcome::Skipped));
        assert_eq!(
            step(&options, Step::Ask, Event::AskFailed),
            Step::Done(Outcome::Failed(RemoveError::PromptFailure))
        );
    }
}

#[test]
fn the_deletion_ends_the_file() {
    for options in all_options() {
        assert_eq!(step(&options, Step::Delete, Event::Deleted), Step::Done(Outcome::Removed));
        assert_eq!(
            step(&options, Step::Delete, Event::DeleteFailed),
            Step::Done(Outcome::Failed(RemoveError::DeleteFailure))
        );
    }
}

#[test]
fn a_stray_event_changes_nothing() {
    for options in all_options() {
        for event in [Event::Answered(true), Event::AskFailed, Event::Deleted, Event::DeleteFailed] {
            assert_eq!(step(&options, Step::Lookup, event), Step::Lookup);
        }
        for event in [Event::Found, Event::NotFound, Event::Deleted, Event::DeleteFailed] {
            assert_eq!(step(&options, Step::Ask, event), Step::Ask);
        }
        for event in [Event::Found, Event::LookupFailed, Event::Answered(true), Event::AskFailed] {
            assert_eq!(step(&options, Step::Delete, event), Step::Delete);
        }
        for at in STEPS {
            if let Step::Done(_) = at {
                for event in EVENTS {
                    assert_eq!(step(&options, at, event), at);
                }
            }
        }
    }
}

#[test]
fn no_step_is_gone_back_to() {
    for options in all_options() {
        for at in STEPS {
            for event in EVENTS {
                let next = step(&options, at, event);
                assert!(next == at || rank(next) > rank(at));
            }
        }
    }
}

#[test]
fn the_question_is_put_only_when_interactive() {
    for options in all_options() {
        for at in STEPS {
            for event in EVENTS {
                if at != Step::Ask && step(&options, at, event) == Step::Ask {
                    assert!(options.interactive());
                    assert_eq!((at, event), (Step::Lookup, Event::Found));
                }
            }
        }
    }
}

#[test]
fn the_status_turns_to_failure_and_stays() {
    let plain = Options::requested(false, false, false);
    let failed = Outcome::Failed(RemoveError::DeleteFailure);
    assert_eq!(SUCCESS, 0);
    assert_eq!(FAILURE, 1);
    assert_eq!(settle(SUCCESS, &plain, Outcome::Removed), 0);
    assert_eq!(settle(SUCCESS, &plain, Outcome::Skipped), 0);
    assert_eq!(settle(SUCCESS, &plain, failed), 1);
    assert_eq!(settle(FAILURE, &plain, Outcome::Removed), 1);
    assert_eq!(settle(FAILURE, &plain, Outcome::Skipped), 1);
    assert_eq!(settle(FAILURE, &plain, failed), 1);
}

#[test]
fn the_status_over_a_list_is_failure_when_one_failed() {
    let plain = Options::requested(false, false, true);
    let lists = [
        vec![],
        vec![Outcome::Removed, Outcome::Skipped],
        vec![Outcome::Failed(RemoveError::LookupFailure)],
        vec![Outcome::Removed, Outcome::Failed(RemoveError::DeleteFailure), Outcome::Removed],
        vec![Outcome::Skipped, Outcome::Skipped, Outcome::Failed(RemoveError::PromptFailure)],
    ];
    let expected = [0, 0, 1, 1, 1];
    for (outcomes, expected) in lists.iter().zip(expected) {
        let mut status = SUCCESS;
        for outcome in outcomes {
            status = settle(status, &plain, *outcome);
        }
        assert_eq!(status, expected);
    }
}

#[test]
fn force_keeps_failures_out_of_the_status() {
    let forced = Options::requested(true, false, false);
    for error in [RemoveError::LookupFailure, RemoveError::PromptFailure, RemoveError::DeleteFailure] {
        assert_eq!(settle(SUCCESS, &forced, Outcome::Failed(error)), 0);
        assert_eq!(report_for(&forced, Outcome::Failed(error), "a", "denied"), None);
    }
    let both = Options::requested(true, true, false);
    assert_eq!(settle(SUCCESS, &both, Outcome::Failed(RemoveError::LookupFailure)), 1);
}

#[test]
fn a_failure_is_reported_with_the_operand_as_given() {
    assert_eq!(
        failure_report("missing.txt", "No such file or directory (os error 2)"),
        "rm: cannot remove 'missing.txt': No such file or directory (os error 2)"
    );
    let plain = Options::requested(false, false, false);
    assert_eq!(
        report_for(&plain, Outcome::Failed(RemoveError::DeleteFailure), "a b", "denied"),
        Some("rm: cannot remove 'a b': denied".to_string())
    );
    assert_eq!(report_for(&plain, Outcome::Removed, "a", "denied"), None);
    assert_eq!(report_for(&plain, Outcome::Skipped, "a", "denied"), None);
}

#[test]
fn a_removal_is_announced_when_verbose() {
    assert_eq!(removal_notice("/tmp/present.txt"), "removed '/tmp/present.txt'");
    let verbose = Options::requested(false, false, true);
    let quiet = Options::requested(false, false, false);
    assert_eq!(notice_for(&verbose, Outcome::Removed, "p"), Some("removed 'p'".to_string()));
    assert_eq!(notice_for(&quiet, Outcome::Removed, "p"), None);
    assert_eq!(notice_for(&verbose, Outcome::Skipped, "p"), None);
    assert_eq!(notice_for(&verbose, Outcome::Failed(RemoveError::DeleteFailure), "p"), None);
}

#[test]
fn the_help_text_lists_the_three_flags() {
    let expected = "Usage: rm [OPTION]... FILE...\n\
Remove (unlink) the FILE(s).\n\
\n\
\x20 -f    Attempt to remove the files without prompting for confirmation\n\
\x20 -i    Request confirmation before attempting to remove each file\n\
\x20 -v    Be verbose when deleting files, showing them as they are removed\n";
    assert_eq!(usage(), expected);
    assert_eq!(usage().lines().count(), 6);
}

#[test]
fn each_parse_error_has_its_complaint() {
    assert_eq!(complaint(ParseError::NoArguments), usage());
    assert_eq!(complaint(ParseError::MissingOperand), "rm: missing operand\n");
    assert_eq!(
        complaint(ParseError::InvalidOption('z')),
        format!("rm: invalid option -- 'z'\n{}", usage())
    );
    assert!(complaint(ParseError::InvalidOption('\u{e9}')).starts_with("rm: invalid option -- '\u{e9}'\n"));
}
