//! The values that travel between the caller and the session, each with
//! the mathematical view that the contracts speak of.

use vstd::prelude::*;

verus! {

/// The views of the items of a sequence, in order.
pub open spec fn views<T: View>(items: Seq<T>) -> Seq<T::V> {
    Seq::new(items.len(), |i: int| items[i]@)
}

/// The three switches of an invocation.
#[derive(Clone, Copy, Debug, PartialEq, Eq)]
pub struct Flags {
    /// Directories may be removed.
    pub recursive: bool,
    /// A missing path is passed over in silence.
    pub force: bool,
    /// Successful removals are reported.
    pub verbose: bool,
}

/// What was asked of the tool: the paths, in the order given, and the
/// switches.
#[derive(Clone, Debug, PartialEq, Eq)]
pub struct Invocation {
    pub paths: Vec<String>,
    pub flags: Flags,
}

/// Why the file system or the trash turned a request down.
#[derive(Clone, Copy, Debug, PartialEq, Eq)]
pub enum Reason {
    /// Nothing exists at the path.
    NotFound,
    /// The path may not be touched.
    PermissionDenied,
    /// Anything else.
    Other,
}

/// The kinds of error that a path can end in.
#[derive(Clone, Copy, Debug, PartialEq, Eq)]
pub enum ErrorKind {
    /// Nothing exists at the path.
    PathNotFound,
    /// The path may not be removed: the system denies it, or it is a
    /// directory and `recursive` is not set.
    PermissionDenied,
    /// The removal failed for any other reason.
    DelegateFailure,
}

impl Reason {
    /// The kind of error that a failure with this reason is filed under.
    pub open spec fn spec_error_kind(self) -> ErrorKind {
        match self {
            Reason::NotFound => ErrorKind::PathNotFound,
            Reason::PermissionDenied => ErrorKind::PermissionDenied,
            Reason::Other => ErrorKind::DelegateFailure,
        }
    }

    /// The kind of error that a failure with this reason is filed under.
    #[verifier::when_used_as_spec(spec_error_kind)]
    pub fn error_kind(self) -> (kind: ErrorKind)
        ensures
            kind == self.spec_error_kind(),
    {
        match self {
            Reason::NotFound => ErrorKind::PathNotFound,
            Reason::PermissionDenied => ErrorKind::PermissionDenied,
            Reason::Other => ErrorKind::DelegateFailure,
        }
    }
}

/// A request that was turned down: the reason, and the cause in the
/// words of whoever turned it down.
#[derive(Clone, Debug, PartialEq, Eq)]
pub struct Failure {
    pub reason: Reason,
    pub detail: String,
}

/// The view of a [`Failure`].
pub struct FailureView {
    pub reason: Reason,
    pub detail: Seq<char>,
}

impl View for Failure {
    type V = FailureView;

    open spec fn view(&self) -> FailureView {
        FailureView { reason: self.reason, detail: self.detail@ }
    }
}

/// What the metadata of an existing path says.
#[derive(Clone, Copy, Debug, PartialEq, Eq)]
pub struct PathInfo {
    /// The path is a directory.
    pub is_dir: bool,
    /// Its size in bytes; read for files only.
    pub size: u64,
}

/// One immediate entry of a directory, as the enumeration gave it.
#[derive(Clone, Debug, PartialEq, Eq)]
pub enum Entry {
    /// A file, with its path.
    File(String),
    /// A directory, with its path.
    Directory(String),
    /// An entry that the enumeration failed on.
    Unreadable(Failure),
}

/// The view of an [`Entry`].
pub enum EntryView {
    File(Seq<char>),
    Directory(Seq<char>),
    Unreadable(FailureView),
}

impl View for Entry {
    type V = EntryView;

    open spec fn view(&self) -> EntryView {
        match self {
            Entry::File(path) => EntryView::File(path@),
            Entry::Directory(path) => EntryView::Directory(path@),
            Entry::Unreadable(failure) => EntryView::Unreadable(failure@),
        }
    }
}

/// What the session asks its caller to do next. The number is the
/// position of the path in the invocation.
#[derive(Clone, Copy, Debug, PartialEq, Eq)]
pub enum Request {
    /// Read the metadata of the path.
    Probe(usize),
    /// Enumerate the immediate entries of the directory at the path.
    List(usize),
    /// Hand the path to the trash.
    Trash(usize),
    /// Nothing: every path has been dealt with.
    Finished,
}

/// The view of a [`Request`].
pub enum RequestView {
    Probe(nat),
    List(nat),
    Trash(nat),
    Finished,
}

impl View for Request {
    type V = RequestView;

    open spec fn view(&self) -> RequestView {
        match self {
            Request::Probe(at) => RequestView::Probe(*at as nat),
            Request::List(at) => RequestView::List(*at as nat),
            Request::Trash(at) => RequestView::Trash(*at as nat),
            Request::Finished => RequestView::Finished,
        }
    }
}

/// What the caller found when it carried out a request.
#[derive(Clone, Debug, PartialEq, Eq)]
pub enum Reply {
    /// The path exists; answers [`Request::Probe`].
    Found(PathInfo),
    /// The metadata could not be read; answers [`Request::Probe`].
    ProbeFailed(Failure),
    /// The entries of the directory, in the order in which they were
    /// read; answers [`Request::List`].
    Listed(Vec<Entry>),
    /// The directory could not be opened for reading; answers
    /// [`Request::List`].
    ListingUnavailable,
    /// The trash took the path; answers [`Request::Trash`].
    Removed,
    /// The trash turned the path down; answers [`Request::Trash`].
    RemovalFailed(Failure),
}

/// The view of a [`Reply`].
pub enum ReplyView {
    Found(PathInfo),
    ProbeFailed(FailureView),
    Listed(Seq<EntryView>),
    ListingUnavailable,
    Removed,
    RemovalFailed(FailureView),
}

impl View for Reply {
    type V = ReplyView;

    open spec fn view(&self) -> ReplyView {
        match self {
            Reply::Found(info) => ReplyView::Found(*info),
            Reply::ProbeFailed(failure) => ReplyView::ProbeFailed(failure@),
            Reply::Listed(entries) => ReplyView::Listed(views(entries@)),
            Reply::ListingUnavailable => ReplyView::ListingUnavailable,
            Reply::Removed => ReplyView::Removed,
            Reply::RemovalFailed(failure) => ReplyView::RemovalFailed(failure@),
        }
    }
}

/// How a path ended.
#[derive(Clone, Copy, Debug, PartialEq, Eq)]
pub enum Outcome {
    /// The path is in the trash, or had vanished on its own under
    /// `force`.
    Trashed,
    /// The path did not exist and `force` was set.
    SkippedNotFound,
    /// The path is a directory and `recursive` was not set.
    SkippedIsDirectoryNoRecursive,
    /// The path could not be removed.
    Failed(ErrorKind),
}

impl Outcome {
    /// The kind of error that the path ended in, if it ended in one. A
    /// directory that was refused counts as a denial.
    pub open spec fn spec_error(self) -> Option<ErrorKind> {
        match self {
            Outcome::Trashed => None,
            Outcome::SkippedNotFound => None,
            Outcome::SkippedIsDirectoryNoRecursive => Some(ErrorKind::PermissionDenied),
            Outcome::Failed(kind) => Some(kind),
        }
    }

    /// The kind of error that the path ended in, if it ended in one.
    #[verifier::when_used_as_spec(spec_error)]
    pub fn error(self) -> (kind: Option<ErrorKind>)
        ensures
            kind == self.spec_error(),
    {
        match self {
            Outcome::Trashed => None,
            Outcome::SkippedNotFound => None,
            Outcome::SkippedIsDirectoryNoRecursive => Some(ErrorKind::PermissionDenied),
            Outcome::Failed(kind) => Some(kind),
        }
    }

    /// The path ended without an error.
    pub open spec fn spec_is_success(self) -> bool {
        self.error() is None
    }

    /// The path ended without an error.
    #[verifier::when_used_as_spec(spec_is_success)]
    pub fn is_success(self) -> (success: bool)
        ensures
            success == self.spec_is_success(),
    {
        self.error().is_none()
    }
}

/// What became of one path: its outcome and the lines to print, those
/// for standard output and those for standard error.
#[derive(Clone, Debug, PartialEq, Eq)]
pub struct Report {
    pub outcome: Outcome,
    pub stdout: Vec<String>,
    pub stderr: Vec<String>,
}

/// The view of a [`Report`].
pub struct ReportView {
    pub outcome: Outcome,
    pub stdout: Seq<Seq<char>>,
    pub stderr: Seq<Seq<char>>,
}

impl View for Report {
    type V = ReportView;

    open spec fn view(&self) -> ReportView {
        ReportView {
            outcome: self.outcome,
            stdout: views(self.stdout@),
            stderr: views(self.stderr@),
        }
    }
}

} // verus!
