//! The session: the state of one invocation while its paths are dealt
//! with, one after the other.
//!
//! The session touches neither the file system nor the trash. It says
//! what to do next ([`Session::pending`]), its caller does it and hands
//! back what it found ([`Session::answer`]). [`SessionView`] is the
//! mathematical model of that exchange.

use vstd::prelude::*;
use crate::listing::{earliest_failure, entry_lines, entry_texts, first_unreadable};
use crate::types::{
    views, Flags, Invocation, Outcome, PathInfo, Reply, ReplyView, Report, ReportView, Request,
    RequestView,
};

verus! {

/// How far the current path has come.
pub enum StageView {
    /// Its metadata is being read.
    Probing,
    /// It is a directory whose entries are being enumerated.
    Listing(PathInfo),
    /// It is on its way to the trash; the lines are those of its entries.
    Trashing(PathInfo, Seq<Seq<char>>),
}

/// The model of a session.
pub struct SessionView {
    /// The paths of the invocation, in order.
    pub paths: Seq<Seq<char>>,
    /// The switches of the invocation.
    pub flags: Flags,
    /// The outcomes of the paths that are settled, in order. The path
    /// that follows them is the current one.
    pub outcomes: Seq<Outcome>,
    /// How far the current path has come.
    pub stage: StageView,
}

impl ReplyView {
    /// The reply is one that the request can be answered with.
    pub open spec fn answers(self, request: RequestView) -> bool {
        match request {
            RequestView::Probe(_) => self is Found || self is ProbeFailed,
            RequestView::List(_) => self is Listed || self is ListingUnavailable,
            RequestView::Trash(_) => self is Removed || self is RemovalFailed,
            RequestView::Finished => false,
        }
    }
}

impl SessionView {
    /// The session of an invocation before anything was done.
    pub open spec fn start(paths: Seq<Seq<char>>, flags: Flags) -> SessionView {
        SessionView { paths, flags, outcomes: Seq::empty(), stage: StageView::Probing }
    }

    /// What holds of every session that [`SessionView::start`] and
    /// [`SessionView::next`] can produce. In particular, a directory is
    /// on its way to the trash only under `recursive`.
    pub open spec fn wf(self) -> bool {
        &&& self.outcomes.len() <= self.paths.len()
        &&& self.finished() ==> self.stage is Probing
        &&& match self.stage {
            StageView::Probing => true,
            StageView::Listing(info) => info.is_dir && self.flags.recursive && self.flags.verbose,
            StageView::Trashing(info, lines) => {
                &&& info.is_dir ==> self.flags.recursive
                &&& lines.len() > 0 ==> info.is_dir && self.flags.verbose
            },
        }
    }

    /// The position of the current path: as many paths are settled.
    pub open spec fn index(self) -> nat {
        self.outcomes.len()
    }

    /// Every path is settled.
    pub open spec fn finished(self) -> bool {
        self.index() >= self.paths.len()
    }

    /// The current path.
    pub open spec fn path(self) -> Seq<char>
        recommends
            !self.finished(),
    {
        self.paths[self.index() as int]
    }

    /// What the session waits for.
    pub open spec fn pending(self) -> RequestView {
        if self.finished() {
            RequestView::Finished
        } else {
            match self.stage {
                StageView::Probing => RequestView::Probe(self.index()),
                StageView::Listing(_) => RequestView::List(self.index()),
                StageView::Trashing(_, _) => RequestView::Trash(self.index()),
            }
        }
    }

    /// The report of the current path, if the reply settles it.
    ///
    /// A path is settled by a failed probe, by a directory found without
    /// `recursive`, by an unreadable entry without `force`, and by
    /// whatever the trash answers.
    pub open spec fn verdict(self, reply: ReplyView) -> Option<ReportView> {
        if self.finished() {
            None
        } else {
            match (self.stage, reply) {
                (StageView::Probing, ReplyView::ProbeFailed(failure)) => Some(
                    ReportView::probe_failed(self.flags.force, self.path(), failure),
                ),
                (StageView::Probing, ReplyView::Found(info)) => if info.is_dir
                    && !self.flags.recursive {
                    Some(ReportView::directory_refused(self.path()))
                } else {
                    None
                },
                (StageView::Listing(_), ReplyView::Listed(entries)) => match earliest_failure(
                    entries,
                ) {
                    Some(failure) => if self.flags.force {
                        None
                    } else {
                        Some(ReportView::listing_failed(self.path(), failure))
                    },
                    None => None,
                },
                (StageView::Trashing(info, lines), ReplyView::Removed) => Some(
                    ReportView::removed(self.flags.verbose, self.path(), info, lines),
                ),
                (StageView::Trashing(_, _), ReplyView::RemovalFailed(failure)) => Some(
                    ReportView::removal_failed(self.flags.force, self.path(), failure),
                ),
                _ => None,
            }
        }
    }

    /// The stage that the current path enters, if the reply takes it
    /// further without settling it.
    ///
    /// A file goes to the trash as soon as it is found, and so does a
    /// directory unless `verbose` asks for its entries first. A directory
    /// that cannot be opened for reading goes to the trash with no entry
    /// to name.
    pub open spec fn onward(self, reply: ReplyView) -> Option<StageView> {
        if self.finished() || self.verdict(reply) is Some {
            None
        } else {
            match (self.stage, reply) {
                (StageView::Probing, ReplyView::Found(info)) => if info.is_dir
                    && self.flags.verbose {
                    Some(StageView::Listing(info))
                } else {
                    Some(StageView::Trashing(info, Seq::empty()))
                },
                (StageView::Listing(info), ReplyView::Listed(entries)) => Some(
                    StageView::Trashing(info, entry_texts(entries)),
                ),
                (StageView::Listing(info), ReplyView::ListingUnavailable) => Some(
                    StageView::Trashing(info, Seq::empty()),
                ),
                _ => None,
            }
        }
    }

    /// The session after the reply. A verdict settles the current path
    /// and makes the next one current; otherwise the path enters its
    /// next stage; a reply that does not answer what is pending changes
    /// nothing.
    pub open spec fn next(self, reply: ReplyView) -> SessionView {
        match self.verdict(reply) {
            Some(report) => SessionView {
                outcomes: self.outcomes.push(report.outcome),
                stage: StageView::Probing,
                ..self
            },
            None => match self.onward(reply) {
                Some(stage) => SessionView { stage, ..self },
                None => self,
            },
        }
    }

    /// The session after a run of replies, taken in order.
    pub open spec fn run(self, replies: Seq<ReplyView>) -> SessionView
        decreases replies.len(),
    {
        if replies.len() == 0 {
            self
        } else {
            self.run(replies.drop_last()).next(replies.last())
        }
    }

    /// The replies that the current path may still need before it is
    /// settled, added up over the paths that are left.
    pub open spec fn budget(self) -> nat {
        if self.finished() {
            0
        } else {
            let ahead: nat = (3 * (self.paths.len() - self.index())) as nat;
            match self.stage {
                StageView::Probing => ahead,
                StageView::Listing(_) => (ahead - 1) as nat,
                StageView::Trashing(_, _) => (ahead - 2) as nat,
            }
        }
    }

    /// The exit status: 0 if every settled path ended without an error,
    /// 1 if at least one did not.
    pub open spec fn exit_status(self) -> u8 {
        if forall|i: int| 0 <= i < self.outcomes.len() ==> (#[trigger] self.outcomes[i]).is_success() {
            0
        } else {
            1
        }
    }
}

#[derive(Debug)]
enum Stage {
    Probing,
    Listing(PathInfo),
    Trashing(PathInfo, Vec<String>),
}

impl View for Stage {
    type V = StageView;

    closed spec fn view(&self) -> StageView {
        match self {
            Stage::Probing => StageView::Probing,
            Stage::Listing(info) => StageView::Listing(*info),
            Stage::Trashing(info, lines) => StageView::Trashing(*info, views(lines@)),
        }
    }
}

/// One invocation in progress.
#[derive(Debug)]
pub struct Session {
    paths: Vec<String>,
    flags: Flags,
    outcomes: Vec<Outcome>,
    stage: Stage,
}

impl View for Session {
    type V = SessionView;

    closed spec fn view(&self) -> SessionView {
        SessionView {
            paths: views(self.paths@),
            flags: self.flags,
            outcomes: self.outcomes@,
            stage: self.stage@,
        }
    }
}

impl Session {
    /// The session of an invocation, with nothing done yet.
    pub fn new(invocation: Invocation) -> (session: Session)
        ensures
            session@ == SessionView::start(views(invocation.paths@), invocation.flags),
            session@.wf(),
    {
        Session {
            paths: invocation.paths,
            flags: invocation.flags,
            outcomes: Vec::new(),
            stage: Stage::Probing,
        }
    }

    /// What the caller is to do next. A request names a path of the
    /// invocation by its position.
    pub fn pending(&self) -> (request: Request)
        ensures
            request@ == self@.pending(),
    {
        let index: usize = self.outcomes.len();
        if index >= self.paths.len() {
            Request::Finished
        } else {
            match &self.stage {
                Stage::Probing => Request::Probe(index),
                Stage::Listing(_) => Request::List(index),
                Stage::Trashing(_, _) => Request::Trash(index),
            }
        }
    }

    /// Every path is settled.
    pub fn is_finished(&self) -> (finished: bool)
        ensures
            finished == self@.finished(),
    {
        self.outcomes.len() >= self.paths.len()
    }

    /// The outcomes of the settled paths, in order.
    pub fn outcomes(&self) -> (outcomes: &Vec<Outcome>)
        ensures
            outcomes@ == self@.outcomes,
    {
        &self.outcomes
    }

    /// Takes what the caller found and moves on. Returns the report of
    /// the current path if the reply settles it.
    pub fn answer(&mut self, reply: Reply) -> (report: Option<Report>)
        ensures
            final(self)@ == old(self)@.next(reply@),
            match report {
                Some(report) => old(self)@.verdict(reply@) == Some(report@),
                None => old(self)@.verdict(reply@) is None,
            },
            old(self)@.wf() ==> final(self)@.wf(),
    {
        let index: usize = self.outcomes.len();
        if index >= self.paths.len() {
            return None;
        }
        let mut stage = Stage::Probing;
        std::mem::swap(&mut self.stage, &mut stage);
        match (stage, reply) {
            (Stage::Probing, Reply::ProbeFailed(failure)) => {
                let report = Report::probe_failed(
                    self.flags.force,
                    self.paths[index].as_str(),
                    &failure,
                );
                self.outcomes.push(report.outcome);
                Some(report)
            },
            (Stage::Probing, Reply::Found(info)) => {
                if info.is_dir && !self.flags.recursive {
                    let report = Report::directory_refused(self.paths[index].as_str());
                    self.outcomes.push(report.outcome);
                    Some(report)
                } else if info.is_dir && self.flags.verbose {
                    self.stage = Stage::Listing(info);
                    None
                } else {
                    let lines: Vec<String> = Vec::new();
                    assert(views(lines@) =~= Seq::empty());
                    self.stage = Stage::Trashing(info, lines);
                    None
                }
            },
            (Stage::Listing(info), Reply::Listed(entries)) => {
                let blocked = if self.flags.force {
                    None
                } else {
                    first_unreadable(&entries)
                };
                match blocked {
                    Some(failure) => {
                        let report = Report::listing_failed(
                            self.paths[index].as_str(),
                            failure,
                        );
                        self.outcomes.push(report.outcome);
                        Some(report)
                    },
                    None => {
                        self.stage = Stage::Trashing(info, entry_lines(&entries));
                        None
                    },
                }
            },
            (Stage::Listing(info), Reply::ListingUnavailable) => {
                let lines: Vec<String> = Vec::new();
                assert(views(lines@) =~= Seq::empty());
                self.stage = Stage::Trashing(info, lines);
                None
            },
            (Stage::Trashing(info, lines), Reply::Removed) => {
                let report = Report::removed(
                    self.flags.verbose,
                    self.paths[index].as_str(),
                    info,
                    lines,
                );
                self.outcomes.push(report.outcome);
                Some(report)
            },
            (Stage::Trashing(_, _), Reply::RemovalFailed(failure)) => {
                let report = Report::removal_failed(
                    self.flags.force,
                    self.paths[index].as_str(),
                    &failure,
                );
                self.outcomes.push(report.outcome);
                Some(report)
            },
            (stage, _) => {
                self.stage = stage;
                None
            },
        }
    }

    /// The exit status: 0 if every settled path ended without an error,
    /// 1 if at least one did not.
    pub fn exit_status(&self) -> (status: u8)
        ensures
            status == self@.exit_status(),
    {
        let mut i: usize = 0;
        while i < self.outcomes.len()
            invariant
                i <= self.outcomes.len(),
                forall|j: int| 0 <= j < i ==> (#[trigger] self.outcomes@[j]).is_success(),
            decreases self.outcomes.len() - i,
        {
            if !self.outcomes[i].is_success() {
                assert(!self@.outcomes[i as int].is_success());
                return 1;
            }
            i += 1;
        }
        0
    }
}

} // verus!
