//! The report of each way in which a path can end.

use vstd::prelude::*;
use crate::types::{views, Failure, FailureView, Outcome, PathInfo, Reason, Report, ReportView};
use crate::wording::{
    delegate_cause, delegate_cause_text, directory_refused_line, directory_refused_text,
    moved_directory_line, moved_directory_text, moved_file_line, moved_file_text,
    not_found_line, not_found_text, probe_error_line, probe_error_text, removal_error_line,
    removal_error_text,
};

verus! {

impl ReportView {
    /// An outcome that prints nothing.
    pub open spec fn silent(outcome: Outcome) -> ReportView {
        ReportView { outcome, stdout: Seq::empty(), stderr: Seq::empty() }
    }

    /// An outcome that prints one line on standard error.
    pub open spec fn complaint(outcome: Outcome, line: Seq<char>) -> ReportView {
        ReportView { outcome, stdout: Seq::empty(), stderr: seq![line] }
    }

    /// The path does not exist: passed over in silence under `force`,
    /// an error otherwise.
    pub open spec fn missing(force: bool, path: Seq<char>) -> ReportView {
        if force {
            ReportView::silent(Outcome::SkippedNotFound)
        } else {
            ReportView::complaint(
                Outcome::Failed(Reason::NotFound.error_kind()),
                not_found_text(path),
            )
        }
    }

    /// The metadata of the path could not be read.
    pub open spec fn probe_failed(force: bool, path: Seq<char>, failure: FailureView)
        -> ReportView {
        if failure.reason is NotFound {
            ReportView::missing(force, path)
        } else {
            ReportView::complaint(
                Outcome::Failed(failure.reason.error_kind()),
                probe_error_text(path, failure.detail),
            )
        }
    }

    /// The path is a directory and `recursive` is not set.
    pub open spec fn directory_refused(path: Seq<char>) -> ReportView {
        ReportView::complaint(
            Outcome::SkippedIsDirectoryNoRecursive,
            directory_refused_text(path),
        )
    }

    /// An entry of the directory could not be read and `force` is not
    /// set.
    pub open spec fn listing_failed(path: Seq<char>, failure: FailureView) -> ReportView {
        ReportView::complaint(
            Outcome::Failed(failure.reason.error_kind()),
            removal_error_text(path, failure.detail),
        )
    }

    /// The trash turned the path down. Under `force` a path that has
    /// vanished in the meantime counts as removed, in silence.
    pub open spec fn removal_failed(force: bool, path: Seq<char>, failure: FailureView)
        -> ReportView {
        if force && failure.reason is NotFound {
            ReportView::silent(Outcome::Trashed)
        } else {
            ReportView::complaint(
                Outcome::Failed(failure.reason.error_kind()),
                removal_error_text(path, delegate_cause_text(failure.detail)),
            )
        }
    }

    /// The trash took the path. Under `verbose` a file is confirmed with
    /// its size, a directory with one line of its own and then the lines
    /// of its entries.
    pub open spec fn removed(
        verbose: bool,
        path: Seq<char>,
        info: PathInfo,
        entry_lines: Seq<Seq<char>>,
    ) -> ReportView {
        ReportView {
            outcome: Outcome::Trashed,
            stdout: if !verbose {
                Seq::empty()
            } else if info.is_dir {
                seq![moved_directory_text(path)] + entry_lines
            } else {
                seq![moved_file_text(path, info.size as nat)]
            },
            stderr: Seq::empty(),
        }
    }
}

impl Report {
    /// An outcome that prints nothing.
    pub fn silent(outcome: Outcome) -> (report: Report)
        ensures
            report@ == ReportView::silent(outcome),
    {
        let report = Report { outcome, stdout: Vec::new(), stderr: Vec::new() };
        assert(views(report.stdout@) =~= Seq::empty());
        assert(views(report.stderr@) =~= Seq::empty());
        report
    }

    /// An outcome that prints one line on standard error.
    pub fn complaint(outcome: Outcome, line: String) -> (report: Report)
        ensures
            report@ == ReportView::complaint(outcome, line@),
    {
        let mut stderr: Vec<String> = Vec::new();
        stderr.push(line);
        let report = Report { outcome, stdout: Vec::new(), stderr };
        assert(views(report.stdout@) =~= Seq::empty());
        assert(views(report.stderr@) =~= seq![line@]);
        report
    }

    /// The path does not exist.
    pub fn missing(force: bool, path: &str) -> (report: Report)
        ensures
            report@ == ReportView::missing(force, path@),
    {
        if force {
            Report::silent(Outcome::SkippedNotFound)
        } else {
            Report::complaint(
                Outcome::Failed(Reason::NotFound.error_kind()),
                not_found_line(path),
            )
        }
    }

    /// The metadata of the path could not be read.
    pub fn probe_failed(force: bool, path: &str, failure: &Failure) -> (report: Report)
        ensures
            report@ == ReportView::probe_failed(force, path@, failure@),
    {
        match failure.reason {
            Reason::NotFound => Report::missing(force, path),
            _ => Report::complaint(
                Outcome::Failed(failure.reason.error_kind()),
                probe_error_line(path, failure.detail.as_str()),
            ),
        }
    }

    /// The path is a directory and `recursive` is not set.
    pub fn directory_refused(path: &str) -> (report: Report)
        ensures
            report@ == ReportView::directory_refused(path@),
    {
        Report::complaint(Outcome::SkippedIsDirectoryNoRecursive, directory_refused_line(path))
    }

    /// An entry of the directory could not be read and `force` is not
    /// set.
    pub fn listing_failed(path: &str, failure: &Failure) -> (report: Report)
        ensures
            report@ == ReportView::listing_failed(path@, failure@),
    {
        Report::complaint(
            Outcome::Failed(failure.reason.error_kind()),
            removal_error_line(path, failure.detail.as_str()),
        )
    }

    /// The trash turned the path down.
    pub fn removal_failed(force: bool, path: &str, failure: &Failure) -> (report: Report)
        ensures
            report@ == ReportView::removal_failed(force, path@, failure@),
    {
        let vanished = match failure.reason {
            Reason::NotFound => true,
            _ => false,
        };
        if force && vanished {
            Report::silent(Outcome::Trashed)
        } else {
            let cause = delegate_cause(failure.detail.as_str());
            Report::complaint(
                Outcome::Failed(failure.reason.error_kind()),
                removal_error_line(path, cause.as_str()),
            )
        }
    }

    /// The trash took the path.
    pub fn removed(verbose: bool, path: &str, info: PathInfo, entry_lines: Vec<String>) -> (report:
        Report)
        ensures
            report@ == ReportView::removed(verbose, path@, info, views(entry_lines@)),
    {
        let mut stdout: Vec<String> = Vec::new();
        if verbose {
            if info.is_dir {
                let mut rest = entry_lines;
                stdout.push(moved_directory_line(path));
                stdout.append(&mut rest);
                assert(views(stdout@) =~= seq![moved_directory_text(path@)] + views(
                    entry_lines@,
                ));
            } else {
                stdout.push(moved_file_line(path, info.size));
                assert(views(stdout@) =~= seq![moved_file_text(path@, info.size as nat)]);
            }
        } else {
            assert(views(stdout@) =~= Seq::empty());
        }
        let report = Report { outcome: Outcome::Trashed, stdout, stderr: Vec::new() };
        assert(views(report.stderr@) =~= Seq::empty());
        report
    }
}

} // verus!
