//! What holds of every session, of every listing and of the wording,
//! proved over the model.

use vstd::prelude::*;
use crate::listing::{earliest_failure, entry_texts};
use crate::session::{SessionView, StageView};
use crate::types::{
    EntryView, ErrorKind, FailureView, Flags, Outcome, PathInfo, ReplyView, ReportView,
    RequestView,
};
use crate::wording::{
    decimal, delegate_cause_text, directory_refused_text, is_digit, not_found_text,
    numeral_value, probe_error_text, removal_error_text,
};

verus! {

/// `part` occurs in `line` as a run of consecutive characters.
pub open spec fn mentions(line: Seq<char>, part: Seq<char>) -> bool {
    exists|at: int|
        0 <= at && at + part.len() <= line.len() && #[trigger] line.subrange(
            at,
            at + part.len(),
        ) == part
}

/// The report is that of a path that ended without an error: nothing on
/// standard error.
pub open spec fn quiet(report: ReportView) -> bool {
    report.outcome.is_success() && report.stderr.len() == 0
}

/// The report is that of a path that ended in an error: nothing on
/// standard output and one line on standard error, which names the path.
pub open spec fn one_complaint(report: ReportView, path: Seq<char>) -> bool {
    &&& !report.outcome.is_success()
    &&& report.stdout.len() == 0
    &&& report.stderr.len() == 1
    &&& mentions(report.stderr[0], path)
}

/// Every reply of the run answers what is pending when it comes.
pub open spec fn answered_throughout(session: SessionView, replies: Seq<ReplyView>) -> bool
    decreases replies.len(),
{
    replies.len() == 0 || {
        &&& answered_throughout(session, replies.drop_last())
        &&& replies.last().answers(session.run(replies.drop_last()).pending())
    }
}

/// A session starts well-formed, with the first path to probe.
pub proof fn lemma_start_is_wf(paths: Seq<Seq<char>>, flags: Flags)
    ensures
        SessionView::start(paths, flags).wf(),
        SessionView::start(paths, flags).pending() == if paths.len() == 0 {
            RequestView::Finished
        } else {
            RequestView::Probe(0)
        },
{
}

/// No reply takes a well-formed session to one that is not.
pub proof fn lemma_next_keeps_wf(session: SessionView, reply: ReplyView)
    requires
        session.wf(),
    ensures
        session.next(reply).wf(),
{
}

/// No run of replies takes a well-formed session to one that is not, nor
/// does it take the session back to a path that is settled or change the
/// invocation.
pub proof fn lemma_run_keeps_wf(session: SessionView, replies: Seq<ReplyView>)
    requires
        session.wf(),
    ensures
        session.run(replies).wf(),
        session.run(replies).index() >= session.index(),
        session.run(replies).paths == session.paths,
        session.run(replies).flags == session.flags,
    decreases replies.len(),
{
    if replies.len() > 0 {
        lemma_run_keeps_wf(session, replies.drop_last());
        lemma_next_keeps_wf(session.run(replies.drop_last()), replies.last());
    }
}

/// A reply that does not answer what is pending is ignored.
pub proof fn lemma_stray_reply_is_ignored(session: SessionView, reply: ReplyView)
    requires
        !reply.answers(session.pending()),
    ensures
        session.verdict(reply) is None,
        session.next(reply) == session,
{
}

/// Every reply that answers what is pending brings the session closer to
/// its end: a path takes three replies at most.
pub proof fn lemma_answer_makes_progress(session: SessionView, reply: ReplyView)
    requires
        session.wf(),
        reply.answers(session.pending()),
    ensures
        session.next(reply).budget() < session.budget(),
        session.budget() <= 3 * (session.paths.len() - session.index()),
        session.budget() == 0 <==> session.finished(),
{
}

/// The session comes to its end: a run of replies that each answer what
/// is pending is no longer than three replies for each path that was
/// left when it began.
pub proof fn lemma_run_is_bounded(session: SessionView, replies: Seq<ReplyView>)
    requires
        session.wf(),
        answered_throughout(session, replies),
    ensures
        session.run(replies).budget() + replies.len() <= session.budget(),
        replies.len() <= 3 * (session.paths.len() - session.index()),
    decreases replies.len(),
{
    if replies.len() > 0 {
        let before = session.run(replies.drop_last());
        lemma_run_is_bounded(session, replies.drop_last());
        lemma_run_keeps_wf(session, replies.drop_last());
        lemma_answer_makes_progress(before, replies.last());
    }
}

/// The paths are settled one by one, in the order given: a verdict files
/// its outcome and makes the next path current, whatever the outcome
/// is; without a verdict the session stays with the current path. A
/// finished session holds one outcome for each path.
pub proof fn lemma_paths_are_settled_in_order(session: SessionView, reply: ReplyView)
    requires
        session.wf(),
    ensures
        match session.verdict(reply) {
            Some(report) => {
                &&& session.next(reply).outcomes == session.outcomes.push(report.outcome)
                &&& session.next(reply).index() == session.index() + 1
                &&& session.next(reply).pending() == if session.index() + 1
                    < session.paths.len() {
                    RequestView::Probe(session.index() + 1)
                } else {
                    RequestView::Finished
                }
            },
            None => session.next(reply).outcomes == session.outcomes,
        },
        session.finished() ==> session.outcomes.len() == session.paths.len(),
{
}

/// What becomes of a path depends on the switches, on the path and on
/// the replies about it, and on nothing else: not on the paths before or
/// after it, nor on how they ended.
pub proof fn lemma_paths_are_independent(
    one: SessionView,
    other: SessionView,
    reply: ReplyView,
)
    requires
        !one.finished(),
        !other.finished(),
        one.flags == other.flags,
        one.path() == other.path(),
        one.stage == other.stage,
    ensures
        one.verdict(reply) == other.verdict(reply),
        one.onward(reply) == other.onward(reply),
        one.next(reply).stage == other.next(reply).stage,
{
}

/// Every verdict is either a success that is quiet on standard error, or
/// an error with exactly one line on standard error, which names the
/// path.
pub proof fn lemma_one_line_for_each_error(session: SessionView, reply: ReplyView)
    requires
        session.verdict(reply) is Some,
    ensures
        quiet(session.verdict(reply)->0) || one_complaint(
            session.verdict(reply)->0,
            session.path(),
        ),
{
    lemma_wording_names_the_path(session.path());
}

/// The line of an error that has a cause holds the cause, word for word.
/// The errors without one are the missing path and the refused
/// directory.
pub proof fn lemma_error_line_holds_the_cause(session: SessionView, reply: ReplyView)
    requires
        session.verdict(reply) is Some,
        !session.verdict(reply)->0.outcome.is_success(),
    ensures
        match reply {
            ReplyView::ProbeFailed(failure) => failure.reason is NotFound || mentions(
                session.verdict(reply)->0.stderr[0],
                failure.detail,
            ),
            ReplyView::Listed(entries) => mentions(
                session.verdict(reply)->0.stderr[0],
                earliest_failure(entries)->0.detail,
            ),
            ReplyView::RemovalFailed(failure) => mentions(
                session.verdict(reply)->0.stderr[0],
                failure.detail,
            ),
            _ => true,
        },
{
    let path = session.path();
    match reply {
        ReplyView::ProbeFailed(failure) => {
            lemma_wording_holds_the_cause(path, failure.detail);
        },
        ReplyView::Listed(entries) => {
            lemma_wording_holds_the_cause(path, earliest_failure(entries)->0.detail);
        },
        ReplyView::RemovalFailed(failure) => {
            lemma_wording_holds_the_cause(path, failure.detail);
        },
        _ => {},
    }
}

/// The exit status is 1 from the first path on that ends in an error,
/// and 0 until then.
pub proof fn lemma_exit_status_tells_of_errors(session: SessionView, reply: ReplyView)
    ensures
        SessionView::start(session.paths, session.flags).exit_status() == 0,
        session.next(reply).exit_status() == match session.verdict(reply) {
            Some(report) => if report.outcome.is_success() {
                session.exit_status()
            } else {
                1
            },
            None => session.exit_status(),
        },
{
    let after = session.next(reply);
    if let Some(report) = session.verdict(reply) {
        assert(after.outcomes.last() == report.outcome);
        if session.exit_status() == 0 {
            assert forall|i: int| 0 <= i < session.outcomes.len() implies (
            #[trigger] after.outcomes[i]).is_success() by {
                assert(session.outcomes[i].is_success());
            }
        } else {
            let bad: int = choose|i: int|
                0 <= i < session.outcomes.len() && !(#[trigger] session.outcomes[i]).is_success();
            assert(!after.outcomes[bad].is_success());
        }
    }
}

/// A file that exists goes to the trash whatever the switches are. Once
/// the trash has taken it the path ends as trashed; with no switch set
/// nothing is printed.
pub proof fn lemma_file_is_trashed(session: SessionView, info: PathInfo)
    requires
        !session.finished(),
        session.stage is Probing,
        !info.is_dir,
    ensures
        session.verdict(ReplyView::Found(info)) is None,
        session.next(ReplyView::Found(info)).pending() == RequestView::Trash(session.index()),
        session.next(ReplyView::Found(info)).verdict(ReplyView::Removed) == Some(
            ReportView::removed(session.flags.verbose, session.path(), info, Seq::empty()),
        ),
        !session.flags.verbose ==> session.next(ReplyView::Found(info)).verdict(ReplyView::Removed)
            == Some(ReportView::silent(Outcome::Trashed)),
{
}

/// A directory that exists is refused when `recursive` is not set: the
/// path ends at once, with one line on standard error, and whatever
/// replies follow, the session never asks to enumerate it or to hand it
/// to the trash.
pub proof fn lemma_directory_is_refused(
    session: SessionView,
    info: PathInfo,
    later: Seq<ReplyView>,
)
    requires
        session.wf(),
        !session.finished(),
        session.stage is Probing,
        info.is_dir,
        !session.flags.recursive,
    ensures
        session.verdict(ReplyView::Found(info)) == Some(
            ReportView::directory_refused(session.path()),
        ),
        session.next(ReplyView::Found(info)).run(later).pending() != RequestView::List(
            session.index(),
        ),
        session.next(ReplyView::Found(info)).run(later).pending() != RequestView::Trash(
            session.index(),
        ),
{
    let refused = session.next(ReplyView::Found(info));
    lemma_next_keeps_wf(session, ReplyView::Found(info));
    lemma_run_keeps_wf(refused, later);
}

/// Whatever the invocation and whatever the replies, the session asks to
/// enumerate or to trash a directory only under `recursive`, and asks to
/// enumerate only under `verbose`.
pub proof fn lemma_directories_need_recursive(
    paths: Seq<Seq<char>>,
    flags: Flags,
    replies: Seq<ReplyView>,
)
    ensures
        match SessionView::start(paths, flags).run(replies).stage {
            StageView::Probing => true,
            StageView::Listing(info) => info.is_dir && flags.recursive && flags.verbose,
            StageView::Trashing(info, _) => info.is_dir ==> flags.recursive,
        },
{
    lemma_start_is_wf(paths, flags);
    lemma_run_keeps_wf(SessionView::start(paths, flags), replies);
}

/// Under `force` a path that is not there ends in silence: no line on
/// either stream, and no error.
pub proof fn lemma_missing_path_is_silent_under_force(session: SessionView, failure: FailureView)
    requires
        !session.finished(),
        session.stage is Probing,
        failure.reason is NotFound,
        session.flags.force,
    ensures
        session.verdict(ReplyView::ProbeFailed(failure)) == Some(
            ReportView::silent(Outcome::SkippedNotFound),
        ),
        session.next(ReplyView::ProbeFailed(failure)).exit_status() == session.exit_status(),
{
    lemma_exit_status_tells_of_errors(session, ReplyView::ProbeFailed(failure));
}

/// Without `force` a path that is not there ends in exactly one line on
/// standard error, and the session goes on to the path that follows.
pub proof fn lemma_missing_path_is_one_error(session: SessionView, failure: FailureView)
    requires
        !session.finished(),
        session.stage is Probing,
        failure.reason is NotFound,
        !session.flags.force,
    ensures
        session.verdict(ReplyView::ProbeFailed(failure)) == Some(
            ReportView::complaint(
                Outcome::Failed(ErrorKind::PathNotFound),
                not_found_text(session.path()),
            ),
        ),
        session.next(ReplyView::ProbeFailed(failure)).pending() == if session.index() + 1
            < session.paths.len() {
            RequestView::Probe(session.index() + 1)
        } else {
            RequestView::Finished
        },
{
}

/// A path that is gone is a path that is not there: whether an earlier
/// removal took it or it never existed, in whatever invocation and at
/// whatever position it is named, the probe that does not find it is
/// answered by the same report, which the path and `force` alone decide,
/// and the session asks nothing more about it.
pub proof fn lemma_gone_is_missing(
    first: SessionView,
    gone: FailureView,
    second: SessionView,
    absent: FailureView,
)
    requires
        !first.finished(),
        first.stage is Probing,
        gone.reason is NotFound,
        !second.finished(),
        second.stage is Probing,
        absent.reason is NotFound,
        first.path() == second.path(),
        first.flags.force == second.flags.force,
    ensures
        first.verdict(ReplyView::ProbeFailed(gone)) == second.verdict(
            ReplyView::ProbeFailed(absent),
        ),
        first.verdict(ReplyView::ProbeFailed(gone)) == Some(
            ReportView::missing(first.flags.force, first.path()),
        ),
        first.next(ReplyView::ProbeFailed(gone)).index() == first.index() + 1,
{
}

/// The lines of a listing that was read in two parts are the lines of
/// the first part and then those of the second: every entry that was
/// read has its line, in the order of the entries, and no other line is
/// there.
pub proof fn lemma_entry_texts_follow_the_entries(head: Seq<EntryView>, tail: Seq<EntryView>)
    ensures
        entry_texts(head + tail) == entry_texts(head) + entry_texts(tail),
        entry_texts(head).len() <= head.len(),
    decreases tail.len(),
{
    if tail.len() == 0 {
        lemma_entry_texts_are_few(head);
        assert(head + tail =~= head);
    } else {
        lemma_entry_texts_follow_the_entries(head, tail.drop_last());
        assert((head + tail).drop_last() =~= head + tail.drop_last());
    }
}

/// A listing has no more lines than entries.
proof fn lemma_entry_texts_are_few(entries: Seq<EntryView>)
    ensures
        entry_texts(entries).len() <= entries.len(),
    decreases entries.len(),
{
    if entries.len() > 0 {
        lemma_entry_texts_are_few(entries.drop_last());
    }
}

/// The failure that stops a listing is that of its first unreadable
/// entry: the one of the first part if it has any, else the one of the
/// second part.
pub proof fn lemma_earliest_failure_is_the_first(head: Seq<EntryView>, tail: Seq<EntryView>)
    ensures
        earliest_failure(head + tail) == if earliest_failure(head) is Some {
            earliest_failure(head)
        } else {
            earliest_failure(tail)
        },
        earliest_failure(head) is None <==> forall|i: int|
            0 <= i < head.len() ==> !(#[trigger] head[i] is Unreadable),
    decreases tail.len(),
{
    lemma_no_failure_means_all_read(head);
    if tail.len() == 0 {
        assert(head + tail =~= head);
    } else {
        lemma_earliest_failure_is_the_first(head, tail.drop_last());
        assert((head + tail).drop_last() =~= head + tail.drop_last());
    }
}

/// A listing has no failure exactly if every entry was read.
proof fn lemma_no_failure_means_all_read(entries: Seq<EntryView>)
    ensures
        earliest_failure(entries) is None <==> forall|i: int|
            0 <= i < entries.len() ==> !(#[trigger] entries[i] is Unreadable),
    decreases entries.len(),
{
    if entries.len() > 0 {
        let before = entries.drop_last();
        lemma_no_failure_means_all_read(before);
        if earliest_failure(entries) is None {
            assert forall|i: int| 0 <= i < entries.len() implies !(
            #[trigger] entries[i] is Unreadable) by {
                if i < before.len() {
                    assert(before[i] == entries[i]);
                }
            }
        } else if earliest_failure(before) is Some {
            let i: int = choose|i: int|
                0 <= i < before.len() && #[trigger] before[i] is Unreadable;
            assert(entries[i] is Unreadable);
        } else {
            assert(entries[entries.len() - 1] is Unreadable);
        }
    }
}

/// The numeral of a size is a run of digits, without a leading zero,
/// that reads back as the size.
pub proof fn lemma_decimal_reads_back(n: nat)
    ensures
        numeral_value(decimal(n)) == n,
        decimal(n).len() >= 1,
        n > 0 ==> decimal(n)[0] != '0',
        forall|i: int| 0 <= i < decimal(n).len() ==> is_digit(#[trigger] decimal(n)[i]),
    decreases n,
{
    if n < 10 {
        assert(decimal(n).drop_last() =~= Seq::<char>::empty());
        assert(numeral_value(decimal(n).drop_last()) == 0);
    } else {
        let front = decimal(n / 10);
        lemma_decimal_reads_back(n / 10);
        assert(decimal(n).drop_last() =~= front);
        assert forall|i: int| 0 <= i < decimal(n).len() implies is_digit(
            #[trigger] decimal(n)[i],
        ) by {
            if i < front.len() {
                assert(decimal(n)[i] == front[i]);
            }
        }
    }
}

/// The line of each error names the path it is about.
pub proof fn lemma_wording_names_the_path(path: Seq<char>)
    ensures
        mentions(not_found_text(path), path),
        mentions(directory_refused_text(path), path),
        forall|cause: Seq<char>| mentions(#[trigger] probe_error_text(path, cause), path),
        forall|cause: Seq<char>| mentions(#[trigger] removal_error_text(path, cause), path),
{
    lemma_mentions_middle("Path not found: '"@, path, "'"@);
    lemma_mentions_middle("Cannot remove directory '"@, path, "' without -r flag"@);
    assert forall|cause: Seq<char>| mentions(#[trigger] probe_error_text(path, cause), path) by {
        lemma_mentions_middle("Error: '"@, path, "': "@ + cause);
        assert("Error: '"@ + path + "': "@ + cause =~= "Error: '"@ + path + ("': "@ + cause));
    }
    assert forall|cause: Seq<char>| mentions(
        #[trigger] removal_error_text(path, cause),
        path,
    ) by {
        lemma_mentions_middle("Error moving to trash: '"@, path, "': "@ + cause);
        assert("Error moving to trash: '"@ + path + "': "@ + cause
            =~= "Error moving to trash: '"@ + path + ("': "@ + cause));
    }
}

/// The line of an error with a cause holds the cause, word for word.
pub proof fn lemma_wording_holds_the_cause(path: Seq<char>, cause: Seq<char>)
    ensures
        mentions(probe_error_text(path, cause), cause),
        mentions(removal_error_text(path, cause), cause),
        mentions(removal_error_text(path, delegate_cause_text(cause)), cause),
{
    lemma_mentions_middle("Error: '"@ + path + "': "@, cause, Seq::empty());
    lemma_mentions_middle("Error moving to trash: '"@ + path + "': "@, cause, Seq::empty());
    assert("Error moving to trash: '"@ + path + "': "@ + cause + Seq::empty()
        =~= removal_error_text(path, cause));
    let head = "Error moving to trash: '"@ + path + "': "@ + "Failed to move to trash: '"@;
    lemma_mentions_middle(head, cause, "'"@);
    assert(head + cause + "'"@ =~= removal_error_text(path, delegate_cause_text(cause)));
}

/// What stands between two texts occurs in the whole.
proof fn lemma_mentions_middle(head: Seq<char>, part: Seq<char>, tail: Seq<char>)
    ensures
        mentions(head + part + tail, part),
{
    let line = head + part + tail;
    let at: int = head.len() as int;
    assert(line.subrange(at, at + part.len()) =~= part);
}

} // verus!
