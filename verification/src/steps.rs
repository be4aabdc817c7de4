//! The shape of an operation that needs the host: it proceeds in steps, each
//! of which tells the user something and then either asks the host for one
//! piece of work, remembering where it stands, or ends with a result.

use crate::command::{CommandPlan, CommandView, HostEnv, HostEnvView};
use crate::errors::{Error, ErrorView, HostError};
use crate::install::{InstallMethod, InstallMethodView, UpdateStatus};
use crate::notifications::{Notification, NotificationView};
use crate::paths::FsPath;
use crate::requests::{Request, RequestView};
use crate::text::views;
use vstd::prelude::*;

verus! {

/// What an operation ends with when it succeeds.
#[derive(Debug, PartialEq, Eq)]
pub enum Outcome {
    Unit,
    Status(UpdateStatus),
    Command(CommandPlan),
}

pub enum OutcomeView {
    Unit,
    Status(UpdateStatus),
    Command(CommandView),
}

impl View for Outcome {
    type V = OutcomeView;

    open spec fn view(&self) -> OutcomeView {
        match self {
            Outcome::Unit => OutcomeView::Unit,
            Outcome::Status(s) => OutcomeView::Status(*s),
            Outcome::Command(c) => OutcomeView::Command(c@),
        }
    }
}

/// What follows an installation.
#[derive(Debug, PartialEq, Eq)]
pub enum Then {
    /// Its status is the result.
    Return,
    /// Only its success is the result.
    Discard,
    /// It is recorded in the telemetry log, and its status is the result.
    Log,
    /// The installers from `next` on are installed.
    Installers { installers: Vec<String>, next: usize },
}

pub enum ThenView {
    Return,
    Discard,
    Log,
    Installers { installers: Seq<Seq<char>>, next: usize },
}

impl View for Then {
    type V = ThenView;

    open spec fn view(&self) -> ThenView {
        match self {
            Then::Return => ThenView::Return,
            Then::Discard => ThenView::Discard,
            Then::Log => ThenView::Log,
            Then::Installers { installers, next } => ThenView::Installers {
                installers: views(installers@),
                next: *next,
            },
        }
    }
}

/// What follows a removal.
#[derive(Debug, PartialEq, Eq)]
pub enum AfterRemoval {
    /// Nothing: the removal was asked for.
    Return,
    /// These installers are installed.
    Install(Vec<String>),
}

pub enum AfterRemovalView {
    Return,
    Install(Seq<Seq<char>>),
}

impl View for AfterRemoval {
    type V = AfterRemovalView;

    open spec fn view(&self) -> AfterRemovalView {
        match self {
            AfterRemoval::Return => AfterRemovalView::Return,
            AfterRemoval::Install(installers) => AfterRemovalView::Install(views(installers@)),
        }
    }
}

pub open spec fn status_result(r: Result<UpdateStatus, Error>) -> Result<UpdateStatus, ErrorView> {
    match r {
        Ok(s) => Ok(s),
        Err(e) => Err(e@),
    }
}

pub open spec fn failure_option(e: Option<HostError>) -> Option<Seq<char>> {
    match e {
        Some(e) => Some(e@),
        None => None,
    }
}

/// Where an operation stands while the host works: each state names the
/// request whose reply it waits for.
#[derive(Debug, PartialEq, Eq)]
pub enum State {
    /// Installing: what is at the toolchain's directory?
    InstallProbe { method: InstallMethod, then: Then },
    /// Installing: the installer runs.
    InstallRun { existed: bool, then: Then },
    /// Installing unless installed: what is at the toolchain's directory?
    IfAbsentProbe { method: InstallMethod },
    /// Removing: what is at the toolchain's directory?
    RemoveProbe { after: AfterRemoval },
    /// Removing: where is the update hash?
    RemoveHashLookup { after: AfterRemoval },
    /// Removing: the update hash is deleted.
    RemoveHash { after: AfterRemoval },
    /// Removing: the uninstaller runs.
    RemoveRun { after: AfterRemoval },
    /// Removing: is the toolchain's directory gone?
    RemoveConfirm { failure: Option<HostError>, after: AfterRemoval },
    /// Installing from the distribution: is telemetry on?
    DistTelemetry { force: bool },
    /// Installing from the distribution: where is the update hash?
    DistHashLookup { force: bool, log: bool, if_absent: bool },
    /// Installing from the distribution: the attempt is logged.
    DistLog { result: Result<UpdateStatus, Error> },
    /// Installing from installers: a temporary file for a download. `next`
    /// is the installer after the one at hand.
    InstallerTemp { url: String, installers: Vec<String>, next: usize },
    /// Installing from installers: the download runs.
    InstallerDownload { archive: FsPath, installers: Vec<String>, next: usize },
    /// Installing from a directory: does it hold a directory of binaries?
    DirBin { src: FsPath, link: bool },
    /// Installing from a directory: does that hold the main binary?
    DirMain { src: FsPath, link: bool },
    /// Installing from a directory: its absolute path.
    DirAbsolute,
    /// Creating a command: is the toolchain installed?
    CommandProbe { binary: String, env: HostEnv },
    /// Creating a command: does the toolchain hold the binary?
    CommandLocate { binary: String, env: HostEnv },
    /// Creating a fallback command: is this toolchain installed?
    FallbackProbe { primary_name: String, primary_path: FsPath, env: HostEnv },
    /// Creating a fallback command: is the primary toolchain installed?
    FallbackPrimaryProbe { primary_name: String, env: HostEnv },
    /// Creating a fallback command: the directory for the link is made.
    FallbackDir { primary_name: String, env: HostEnv },
    /// Creating a fallback command: is an old link in the way?
    FallbackStale { primary_name: String, env: HostEnv },
    /// Creating a fallback command: the old link is deleted.
    FallbackUnlink { primary_name: String, env: HostEnv },
    /// Creating a fallback command: the link is made.
    FallbackLink { primary_name: String, env: HostEnv },
}

pub enum StateView {
    InstallProbe { method: InstallMethodView, then: ThenView },
    InstallRun { existed: bool, then: ThenView },
    IfAbsentProbe { method: InstallMethodView },
    RemoveProbe { after: AfterRemovalView },
    RemoveHashLookup { after: AfterRemovalView },
    RemoveHash { after: AfterRemovalView },
    RemoveRun { after: AfterRemovalView },
    RemoveConfirm { failure: Option<Seq<char>>, after: AfterRemovalView },
    DistTelemetry { force: bool },
    DistHashLookup { force: bool, log: bool, if_absent: bool },
    DistLog { result: Result<UpdateStatus, ErrorView> },
    InstallerTemp { url: Seq<char>, installers: Seq<Seq<char>>, next: usize },
    InstallerDownload { archive: Seq<Seq<char>>, installers: Seq<Seq<char>>, next: usize },
    DirBin { src: Seq<Seq<char>>, link: bool },
    DirMain { src: Seq<Seq<char>>, link: bool },
    DirAbsolute,
    CommandProbe { binary: Seq<char>, env: HostEnvView },
    CommandLocate { binary: Seq<char>, env: HostEnvView },
    FallbackProbe { primary_name: Seq<char>, primary_path: Seq<Seq<char>>, env: HostEnvView },
    FallbackPrimaryProbe { primary_name: Seq<char>, env: HostEnvView },
    FallbackDir { primary_name: Seq<char>, env: HostEnvView },
    FallbackStale { primary_name: Seq<char>, env: HostEnvView },
    FallbackUnlink { primary_name: Seq<char>, env: HostEnvView },
    FallbackLink { primary_name: Seq<char>, env: HostEnvView },
}

impl View for State {
    type V = StateView;

    open spec fn view(&self) -> StateView {
        match self {
            State::InstallProbe { method, then } => StateView::InstallProbe {
                method: method@,
                then: then@,
            },
            State::InstallRun { existed, then } => StateView::InstallRun {
                existed: *existed,
                then: then@,
            },
            State::IfAbsentProbe { method } => StateView::IfAbsentProbe { method: method@ },
            State::RemoveProbe { after: then } => StateView::RemoveProbe { after: then@ },
            State::RemoveHashLookup { after: then } => StateView::RemoveHashLookup { after: then@ },
            State::RemoveHash { after: then } => StateView::RemoveHash { after: then@ },
            State::RemoveRun { after: then } => StateView::RemoveRun { after: then@ },
            State::RemoveConfirm { failure, after: then } => StateView::RemoveConfirm {
                failure: failure_option(*failure),
                after: then@,
            },
            State::DistTelemetry { force } => StateView::DistTelemetry { force: *force },
            State::DistHashLookup { force, log, if_absent } => StateView::DistHashLookup {
                force: *force,
                log: *log,
                if_absent: *if_absent,
            },
            State::DistLog { result } => StateView::DistLog { result: status_result(*result) },
            State::InstallerTemp { url, installers, next } => StateView::InstallerTemp {
                url: url@,
                installers: views(installers@),
                next: *next,
            },
            State::InstallerDownload { archive, installers, next } => StateView::InstallerDownload {
                archive: archive@,
                installers: views(installers@),
                next: *next,
            },
            State::DirBin { src, link } => StateView::DirBin { src: src@, link: *link },
            State::DirMain { src, link } => StateView::DirMain { src: src@, link: *link },
            State::DirAbsolute => StateView::DirAbsolute,
            State::CommandProbe { binary, env } => StateView::CommandProbe {
                binary: binary@,
                env: env@,
            },
            State::CommandLocate { binary, env } => StateView::CommandLocate {
                binary: binary@,
                env: env@,
            },
            State::FallbackProbe { primary_name, primary_path, env } => StateView::FallbackProbe {
                primary_name: primary_name@,
                primary_path: primary_path@,
                env: env@,
            },
            State::FallbackPrimaryProbe { primary_name, env } => StateView::FallbackPrimaryProbe {
                primary_name: primary_name@,
                env: env@,
            },
            State::FallbackDir { primary_name, env } => StateView::FallbackDir {
                primary_name: primary_name@,
                env: env@,
            },
            State::FallbackStale { primary_name, env } => StateView::FallbackStale {
                primary_name: primary_name@,
                env: env@,
            },
            State::FallbackUnlink { primary_name, env } => StateView::FallbackUnlink {
                primary_name: primary_name@,
                env: env@,
            },
            State::FallbackLink { primary_name, env } => StateView::FallbackLink {
                primary_name: primary_name@,
                env: env@,
            },
        }
    }
}

/// How an operation goes on after a step.
#[derive(Debug, PartialEq, Eq)]
pub enum Next {
    /// The host does the work and resumes the operation in this state.
    Ask(Request, State),
    /// The operation has ended.
    Done(Result<Outcome, Error>),
}

pub enum NextView {
    Ask(RequestView, StateView),
    Done(Result<OutcomeView, ErrorView>),
}

pub open spec fn outcome_result(r: Result<Outcome, Error>) -> Result<OutcomeView, ErrorView> {
    match r {
        Ok(o) => Ok(o@),
        Err(e) => Err(e@),
    }
}

impl View for Next {
    type V = NextView;

    open spec fn view(&self) -> NextView {
        match self {
            Next::Ask(request, state) => NextView::Ask(request@, state@),
            Next::Done(result) => NextView::Done(outcome_result(*result)),
        }
    }
}

/// One step of an operation: what the user is told, in order, and how the
/// operation goes on.
#[derive(Debug, PartialEq, Eq)]
pub struct Step {
    pub notices: Vec<Notification>,
    pub next: Next,
}

pub struct StepView {
    pub notices: Seq<NotificationView>,
    pub next: NextView,
}

impl View for Step {
    type V = StepView;

    open spec fn view(&self) -> StepView {
        StepView { notices: views(self.notices@), next: self.next@ }
    }
}

impl StepView {
    pub open spec fn ask(request: RequestView, state: StateView) -> StepView {
        StepView { notices: Seq::empty(), next: NextView::Ask(request, state) }
    }

    pub open spec fn done(result: Result<OutcomeView, ErrorView>) -> StepView {
        StepView { notices: Seq::empty(), next: NextView::Done(result) }
    }

    pub open spec fn fail(error: ErrorView) -> StepView {
        StepView::done(Err(error))
    }

    /// The end of an operation whose result is the status of an installation.
    pub open spec fn status(result: Result<UpdateStatus, ErrorView>) -> StepView {
        StepView::done(
            match result {
                Ok(s) => Ok(OutcomeView::Status(s)),
                Err(e) => Err(e),
            },
        )
    }

    /// This step, with the user told `notice` before anything else.
    pub open spec fn after(self, notice: NotificationView) -> StepView {
        StepView { notices: seq![notice] + self.notices, next: self.next }
    }

    /// The request of this step, if it makes one.
    pub open spec fn request(self) -> Option<RequestView> {
        match self.next {
            NextView::Ask(request, _) => Some(request),
            NextView::Done(_) => None,
        }
    }
}

impl Step {
    pub fn ask(request: Request, state: State) -> (step: Step)
        ensures
            step@ == StepView::ask(request@, state@),
    {
        let step = Step { notices: Vec::new(), next: Next::Ask(request, state) };
        assert(step@.notices =~= Seq::empty());
        step
    }

    pub fn done(result: Result<Outcome, Error>) -> (step: Step)
        ensures
            step@ == StepView::done(outcome_result(result)),
    {
        let step = Step { notices: Vec::new(), next: Next::Done(result) };
        assert(step@.notices =~= Seq::empty());
        step
    }

    pub fn fail(error: Error) -> (step: Step)
        ensures
            step@ == StepView::fail(error@),
    {
        Step::done(Err(error))
    }

    pub fn status(result: Result<UpdateStatus, Error>) -> (step: Step)
        ensures
            step@ == StepView::status(status_result(result)),
    {
        match result {
            Ok(s) => Step::done(Ok(Outcome::Status(s))),
            Err(e) => Step::done(Err(e)),
        }
    }

    pub fn after(self, notice: Notification) -> (step: Step)
        ensures
            step@ == self@.after(notice@),
    {
        let mut notices = self.notices;
        notices.insert(0, notice);
        let step = Step { notices, next: self.next };
        assert(step@.notices =~= seq![notice@] + self@.notices);
        step
    }
}

} // verus!
