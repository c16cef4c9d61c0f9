use trash_rm::session::Session;
use trash_rm::types::{
    Entry, ErrorKind, Failure, Flags, Invocation, Outcome, PathInfo, Reason, Reply, Report,
    Request,
};

fn flags(recursive: bool, force: bool, verbose: bool) -> Flags {
    Flags { recursive, force, verbose }
}

fn session(paths: &[&str], flags: Flags) -> Session {
    Session::new(Invocation { paths: paths.iter().map(|p| p.to_string()).collect(), flags })
}

fn file(size: u64) -> Reply {
    Reply::Found(PathInfo { is_dir: false, size })
}

fn directory() -> Reply {
    Reply::Found(PathInfo { is_dir: true, size: 4096 })
}

fn failure(reason: Reason, detail: &str) -> Failure {
    Failure { reason, detail: detail.to_string() }
}

fn absent() -> Failure {
    failure(Reason::NotFound, "No such file or directory (os error 2)")
}

fn silent(outcome: Outcome) -> Option<Report> {
    Some(Report { outcome, stdout: Vec::new(), stderr: Vec::new() })
}

fn complaint(outcome: Outcome, line: &str) -> Option<Report> {
    Some(Report { outcome, stdout: Vec::new(), stderr: vec![line.to_string()] })
}

fn lines(text: &[&str]) -> Vec<String> {
    text.iter().map(|line| line.to_string()).collect()
}

#[test]
fn an_invocation_without_paths_is_finished_at_once() {
    let mut session = session(&[], flags(true, true, true));
    assert_eq!(session.pending(), Request::Finished);
    assert!(session.is_finished());
    assert_eq!(session.answer(file(1)), None);
    assert_eq!(session.answer(Reply::Removed), None);
    assert_eq!(session.pending(), Request::Finished);
    assert_eq!(session.outcomes(), &Vec::<Outcome>::new());
    assert_eq!(session.exit_status(), 0);
}

#[test]
fn a_session_starts_by_probing_the_first_path() {
    let session = session(&["a", "b"], flags(false, false, false));
    assert_eq!(session.pending(), Request::Probe(0));
    assert!(!session.is_finished());
    assert_eq!(session.outcomes(), &Vec::<Outcome>::new());
}

#[test]
fn a_file_with_no_flag_set_goes_to_the_trash_in_silence() {
    let mut session = session(&["a.txt"], flags(false, false, false));
    assert_eq!(session.answer(file(12)), None);
    assert_eq!(session.pending(), Request::Trash(0));
    assert_eq!(session.answer(Reply::Removed), silent(Outcome::Trashed));
    assert_eq!(session.pending(), Request::Finished);
    assert_eq!(session.outcomes(), &vec![Outcome::Trashed]);
    assert_eq!(session.exit_status(), 0);
}

#[test]
fn a_file_goes_to_the_trash_under_every_combination_of_flags() {
    for bits in 0..8u8 {
        let flags = flags(bits & 1 != 0, bits & 2 != 0, bits & 4 != 0);
        let mut session = session(&["a.txt"], flags);
        assert_eq!(session.answer(file(12)), None);
        assert_eq!(session.pending(), Request::Trash(0));
        let report = session.answer(Reply::Removed).unwrap();
        assert_eq!(report.outcome, Outcome::Trashed);
        assert_eq!(report.stderr, Vec::<String>::new());
        if flags.verbose {
            assert_eq!(report.stdout, lines(&["Moved file to trash: 'a.txt' (size: 12 bytes)"]));
        } else {
            assert_eq!(report.stdout, Vec::<String>::new());
        }
    }
}

#[test]
fn a_directory_without_recursive_is_refused_and_never_touched() {
    for bits in 0..4u8 {
        let mut session = session(&["photos", "next"], flags(false, bits & 1 != 0, bits & 2 != 0));
        assert_eq!(
            session.answer(directory()),
            complaint(
                Outcome::SkippedIsDirectoryNoRecursive,
                "Cannot remove directory 'photos' without -r flag"
            )
        );
        assert_eq!(session.pending(), Request::Probe(1));
        assert_eq!(session.answer(Reply::Removed), None);
        assert_eq!(session.answer(Reply::Listed(Vec::new())), None);
        assert_eq!(session.pending(), Request::Probe(1));
        assert_eq!(session.outcomes(), &vec![Outcome::SkippedIsDirectoryNoRecursive]);
    }
}

#[test]
fn a_missing_path_under_force_leaves_no_trace() {
    let mut session = session(&["gone", "next"], flags(false, true, true));
    assert_eq!(session.answer(Reply::ProbeFailed(absent())), silent(Outcome::SkippedNotFound));
    assert_eq!(session.pending(), Request::Probe(1));
    assert_eq!(session.exit_status(), 0);
}

#[test]
fn a_missing_path_without_force_is_one_error_and_the_session_goes_on() {
    let mut session = session(&["gone", "next"], flags(true, false, true));
    assert_eq!(
        session.answer(Reply::ProbeFailed(absent())),
        complaint(Outcome::Failed(ErrorKind::PathNotFound), "Path not found: 'gone'")
    );
    assert_eq!(session.pending(), Request::Probe(1));
    assert_eq!(session.answer(file(3)), None);
    assert_eq!(session.pending(), Request::Trash(1));
    assert_eq!(session.exit_status(), 1);
}

#[test]
fn a_probe_that_fails_otherwise_reports_its_cause() {
    for force in [false, true] {
        let mut session = session(&["locked", "broken"], flags(true, force, false));
        assert_eq!(
            session.answer(Reply::ProbeFailed(failure(
                Reason::PermissionDenied,
                "Permission denied (os error 13)"
            ))),
            complaint(
                Outcome::Failed(ErrorKind::PermissionDenied),
                "Error: 'locked': Permission denied (os error 13)"
            )
        );
        assert_eq!(
            session.answer(Reply::ProbeFailed(failure(Reason::Other, "Input/output error"))),
            complaint(
                Outcome::Failed(ErrorKind::DelegateFailure),
                "Error: 'broken': Input/output error"
            )
        );
        assert_eq!(session.pending(), Request::Finished);
        assert_eq!(session.exit_status(), 1);
    }
}

#[test]
fn removing_a_path_twice_is_removing_a_missing_path() {
    for force in [false, true] {
        let mut twice = session(&["a.txt", "a.txt"], flags(false, force, false));
        assert_eq!(twice.answer(file(12)), None);
        assert_eq!(twice.answer(Reply::Removed), silent(Outcome::Trashed));
        assert_eq!(twice.pending(), Request::Probe(1));
        let second = twice.answer(Reply::ProbeFailed(absent()));

        let mut never = session(&["a.txt"], flags(false, force, false));
        let missing = never.answer(Reply::ProbeFailed(absent()));

        assert_eq!(second, missing);
        if force {
            assert_eq!(second, silent(Outcome::SkippedNotFound));
        } else {
            assert_eq!(
                second,
                complaint(Outcome::Failed(ErrorKind::PathNotFound), "Path not found: 'a.txt'")
            );
        }
        assert_eq!(twice.pending(), Request::Finished);
    }
}

#[test]
fn a_file_a_missing_path_and_a_directory_under_force() {
    let mut session = session(&["A", "B", "C"], flags(false, true, false));

    assert_eq!(session.pending(), Request::Probe(0));
    assert_eq!(session.answer(file(5)), None);
    assert_eq!(session.pending(), Request::Trash(0));
    assert_eq!(session.answer(Reply::Removed), silent(Outcome::Trashed));

    assert_eq!(session.pending(), Request::Probe(1));
    assert_eq!(session.answer(Reply::ProbeFailed(absent())), silent(Outcome::SkippedNotFound));

    assert_eq!(session.pending(), Request::Probe(2));
    assert_eq!(
        session.answer(directory()),
        complaint(
            Outcome::SkippedIsDirectoryNoRecursive,
            "Cannot remove directory 'C' without -r flag"
        )
    );

    assert_eq!(session.pending(), Request::Finished);
    assert_eq!(
        session.outcomes(),
        &vec![Outcome::Trashed, Outcome::SkippedNotFound, Outcome::SkippedIsDirectoryNoRecursive]
    );
    assert_eq!(session.exit_status(), 1);
}

#[test]
fn the_same_three_paths_in_the_reverse_order() {
    let mut session = session(&["C", "B", "A"], flags(false, true, false));

    assert_eq!(
        session.answer(directory()),
        complaint(
            Outcome::SkippedIsDirectoryNoRecursive,
            "Cannot remove directory 'C' without -r flag"
        )
    );
    assert_eq!(session.pending(), Request::Probe(1));
    assert_eq!(session.answer(Reply::ProbeFailed(absent())), silent(Outcome::SkippedNotFound));
    assert_eq!(session.pending(), Request::Probe(2));
    assert_eq!(session.answer(file(5)), None);
    assert_eq!(session.pending(), Request::Trash(2));
    assert_eq!(session.answer(Reply::Removed), silent(Outcome::Trashed));

    assert_eq!(session.pending(), Request::Finished);
    assert_eq!(
        session.outcomes(),
        &vec![Outcome::SkippedIsDirectoryNoRecursive, Outcome::SkippedNotFound, Outcome::Trashed]
    );
}

#[test]
fn a_directory_with_two_files_under_recursive_and_verbose() {
    let mut session = session(&["D"], flags(true, false, true));

    assert_eq!(session.pending(), Request::Probe(0));
    assert_eq!(session.answer(directory()), None);
    assert_eq!(session.pending(), Request::List(0));
    assert_eq!(
        session.answer(Reply::Listed(vec![
            Entry::File("D/x".to_string()),
            Entry::File("D/y".to_string()),
        ])),
        None
    );
    assert_eq!(session.pending(), Request::Trash(0));
    assert_eq!(
        session.answer(Reply::Removed),
        Some(Report {
            outcome: Outcome::Trashed,
            stdout: lines(&[
                "Moved directory to trash: 'D'",
                "  Trashed: 'D/x' (file)",
                "  Trashed: 'D/y' (file)",
            ]),
            stderr: Vec::new(),
        })
    );
    assert_eq!(session.pending(), Request::Finished);
    assert_eq!(session.exit_status(), 0);
}

#[test]
fn a_directory_under_recursive_alone_is_not_enumerated() {
    let mut session = session(&["D"], flags(true, false, false));
    assert_eq!(session.answer(directory()), None);
    assert_eq!(session.pending(), Request::Trash(0));
    assert_eq!(session.answer(Reply::Removed), silent(Outcome::Trashed));
}

#[test]
fn a_directory_that_cannot_be_opened_is_trashed_without_entries() {
    let mut session = session(&["D"], flags(true, false, true));
    assert_eq!(session.answer(directory()), None);
    assert_eq!(session.answer(Reply::ListingUnavailable), None);
    assert_eq!(session.pending(), Request::Trash(0));
    assert_eq!(
        session.answer(Reply::Removed),
        Some(Report {
            outcome: Outcome::Trashed,
            stdout: lines(&["Moved directory to trash: 'D'"]),
            stderr: Vec::new(),
        })
    );
}

#[test]
fn an_unreadable_entry_stops_the_removal_without_force() {
    let mut session = session(&["D", "next"], flags(true, false, true));
    assert_eq!(session.answer(directory()), None);
    assert_eq!(
        session.answer(Reply::Listed(vec![
            Entry::File("D/x".to_string()),
            Entry::Unreadable(failure(Reason::PermissionDenied, "Permission denied (os error 13)")),
            Entry::Unreadable(failure(Reason::Other, "later")),
            Entry::Directory("D/sub".to_string()),
        ])),
        complaint(
            Outcome::Failed(ErrorKind::PermissionDenied),
            "Error moving to trash: 'D': Permission denied (os error 13)"
        )
    );
    assert_eq!(session.pending(), Request::Probe(1));
    assert_eq!(session.answer(Reply::Removed), None);
    assert_eq!(session.pending(), Request::Probe(1));
}

#[test]
fn an_unreadable_entry_is_passed_over_under_force() {
    let mut session = session(&["D"], flags(true, true, true));
    assert_eq!(session.answer(directory()), None);
    assert_eq!(
        session.answer(Reply::Listed(vec![
            Entry::File("D/x".to_string()),
            Entry::Unreadable(failure(Reason::PermissionDenied, "Permission denied (os error 13)")),
            Entry::Directory("D/sub".to_string()),
        ])),
        None
    );
    assert_eq!(session.pending(), Request::Trash(0));
    assert_eq!(
        session.answer(Reply::Removed),
        Some(Report {
            outcome: Outcome::Trashed,
            stdout: lines(&[
                "Moved directory to trash: 'D'",
                "  Trashed: 'D/x' (file)",
                "  Trashed: 'D/sub' (directory)",
            ]),
            stderr: Vec::new(),
        })
    );
}

#[test]
fn a_removal_that_the_trash_turns_down_is_one_error() {
    let mut session = session(&["a", "b"], flags(false, false, true));
    assert_eq!(session.answer(file(1)), None);
    assert_eq!(
        session.answer(Reply::RemovalFailed(failure(Reason::Other, "trash is full"))),
        complaint(
            Outcome::Failed(ErrorKind::DelegateFailure),
            "Error moving to trash: 'a': Failed to move to trash: 'trash is full'"
        )
    );
    assert_eq!(session.pending(), Request::Probe(1));
    assert_eq!(session.answer(file(1)), None);
    assert_eq!(
        session.answer(Reply::RemovalFailed(failure(Reason::PermissionDenied, "not yours"))),
        complaint(
            Outcome::Failed(ErrorKind::PermissionDenied),
            "Error moving to trash: 'b': Failed to move to trash: 'not yours'"
        )
    );
    assert_eq!(session.pending(), Request::Finished);
    assert_eq!(session.exit_status(), 1);
}

#[test]
fn a_path_that_vanishes_before_the_trash_takes_it() {
    let mut forced = session(&["a"], flags(false, true, true));
    assert_eq!(forced.answer(file(1)), None);
    assert_eq!(forced.answer(Reply::RemovalFailed(absent())), silent(Outcome::Trashed));
    assert_eq!(forced.exit_status(), 0);

    let mut plain = session(&["a"], flags(false, false, true));
    assert_eq!(plain.answer(file(1)), None);
    assert_eq!(
        plain.answer(Reply::RemovalFailed(absent())),
        complaint(
            Outcome::Failed(ErrorKind::PathNotFound),
            "Error moving to trash: 'a': Failed to move to trash: 'No such file or directory (os error 2)'"
        )
    );
    assert_eq!(plain.exit_status(), 1);
}

#[test]
fn a_reply_to_something_that_was_not_asked_is_ignored() {
    let mut session = session(&["D"], flags(true, false, true));

    assert_eq!(session.pending(), Request::Probe(0));
    assert_eq!(session.answer(Reply::Removed), None);
    assert_eq!(session.answer(Reply::RemovalFailed(absent())), None);
    assert_eq!(session.answer(Reply::Listed(Vec::new())), None);
    assert_eq!(session.answer(Reply::ListingUnavailable), None);
    assert_eq!(session.pending(), Request::Probe(0));

    assert_eq!(session.answer(directory()), None);
    assert_eq!(session.pending(), Request::List(0));
    assert_eq!(session.answer(file(1)), None);
    assert_eq!(session.answer(Reply::ProbeFailed(absent())), None);
    assert_eq!(session.answer(Reply::Removed), None);
    assert_eq!(session.pending(), Request::List(0));

    assert_eq!(session.answer(Reply::Listed(vec![Entry::File("D/x".to_string())])), None);
    assert_eq!(session.pending(), Request::Trash(0));
    assert_eq!(session.answer(directory()), None);
    assert_eq!(session.answer(Reply::ListingUnavailable), None);
    assert_eq!(session.answer(Reply::Listed(Vec::new())), None);
    assert_eq!(session.pending(), Request::Trash(0));

    assert_eq!(
        session.answer(Reply::Removed),
        Some(Report {
            outcome: Outcome::Trashed,
            stdout: lines(&["Moved directory to trash: 'D'", "  Trashed: 'D/x' (file)"]),
            stderr: Vec::new(),
        })
    );
    assert_eq!(session.outcomes(), &vec![Outcome::Trashed]);
}

#[test]
fn the_exit_status_is_zero_until_a_path_ends_in_an_error() {
    let mut session = session(&["a", "gone", "d", "b"], flags(false, true, false));
    assert_eq!(session.exit_status(), 0);
    session.answer(file(1));
    session.answer(Reply::Removed);
    assert_eq!(session.exit_status(), 0);
    session.answer(Reply::ProbeFailed(absent()));
    assert_eq!(session.exit_status(), 0);
    session.answer(directory());
    assert_eq!(session.exit_status(), 1);
    session.answer(file(1));
    session.answer(Reply::Removed);
    assert_eq!(session.exit_status(), 1);
    assert!(session.is_finished());
}

#[test]
fn every_path_is_settled_within_three_replies() {
    let paths = ["a", "b", "c", "d", "e"];
    let mut session = session(&paths, flags(true, false, true));
    let mut replies = 0;
    let mut reports = 0;
    loop {
        let reply = match session.pending() {
            Request::Probe(at) => {
                if at % 2 == 0 {
                    directory()
                } else {
                    file(at as u64)
                }
            }
            Request::List(_) => Reply::Listed(Vec::new()),
            Request::Trash(at) => {
                if at == 3 {
                    Reply::RemovalFailed(failure(Reason::Other, "no"))
                } else {
                    Reply::Removed
                }
            }
            Request::Finished => break,
        };
        replies += 1;
        if session.answer(reply).is_some() {
            reports += 1;
        }
        assert!(replies <= 3 * paths.len());
    }
    assert_eq!(reports, paths.len());
    assert_eq!(replies, 3 * 3 + 2 * 2);
    assert_eq!(
        session.outcomes(),
        &vec![
            Outcome::Trashed,
            Outcome::Trashed,
            Outcome::Trashed,
            Outcome::Failed(ErrorKind::DelegateFailure),
            Outcome::Trashed,
        ]
    );
    assert_eq!(session.exit_status(), 1);
}
