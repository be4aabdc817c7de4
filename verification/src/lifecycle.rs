//! Installing, updating and removing a toolchain, step by step.
//!
//! Every function here is one step: the specification on [`ToolchainView`]
//! says what the step is, and the function of the same name on [`Toolchain`]
//! computes it.

use crate::errors::{Error, ErrorView, HostError};
use crate::install::{classify, status_after, InstallMethod, InstallMethodView, UpdateStatus};
use crate::installers::{
    classify_installer, installer_source, parsed_url, InstallerSource, InstallerSourceView,
};
use crate::notifications::{Notification, NotificationView};
use crate::paths::FsPath;
use crate::requests::{Reply, ReplyView, Request, RequestView, TelemetryEvent, TelemetryEventView};
use crate::steps::{
    failure_option, status_result, AfterRemoval, AfterRemovalView, Outcome, OutcomeView, State,
    StateView, Step, StepView, Then, ThenView,
};
use crate::text::views;
use crate::toolchain::{Toolchain, ToolchainView};
use vstd::prelude::*;
use vstd::string::StringExecFns;

verus! {

impl ToolchainView {
    /// The name of the main binary of a toolchain.
    pub open spec fn main_binary(self) -> Seq<char> {
        "lean"@ + self.cfg.platform.exe_suffix_spec()
    }

    /// The event that records an attempt to install from the distribution.
    pub open spec fn update_event(self) -> TelemetryEventView {
        TelemetryEventView::ToolchainUpdate { toolchain: self.name, success: true }
    }

    // Installing.

    /// An installation starts by looking at the toolchain's directory.
    pub open spec fn install_start(self, method: InstallMethodView, then: ThenView) -> StepView {
        StepView::ask(RequestView::Probe(self.path), StateView::InstallProbe { method, then })
    }

    /// The user is told whether this installs or updates, and where; then
    /// the installer runs.
    pub open spec fn install_probed(
        self,
        method: InstallMethodView,
        then: ThenView,
        reply: ReplyView,
    ) -> StepView {
        match reply {
            ReplyView::Status(status) => {
                let existed = self.is_installed(status);
                StepView::ask(
                    RequestView::Install(method, self.path),
                    StateView::InstallRun { existed, then },
                ).after(NotificationView::ToolchainDirectory(self.path, self.name)).after(
                    if existed {
                        NotificationView::UpdatingToolchain(self.name)
                    } else {
                        NotificationView::InstallingToolchain(self.name)
                    },
                )
            },
            _ => StepView::fail(ErrorView::UnexpectedReply),
        }
    }

    /// The user is told whether anything changed, and the attempt is
    /// classified. A failure of the installer is handed on.
    pub open spec fn install_ran(self, existed: bool, then: ThenView, reply: ReplyView) -> StepView {
        match reply {
            ReplyView::Flag(changed) => self.after_install(
                then,
                Ok(status_after(existed, changed)),
            ).after(
                if changed {
                    NotificationView::InstalledToolchain(self.name)
                } else {
                    NotificationView::UpdateHashMatches
                },
            ),
            ReplyView::Failed(e) => self.after_install(then, Err(ErrorView::Host(e))),
            _ => StepView::fail(ErrorView::UnexpectedReply),
        }
    }

    pub open spec fn after_install(
        self,
        then: ThenView,
        result: Result<UpdateStatus, ErrorView>,
    ) -> StepView {
        match then {
            ThenView::Return => StepView::status(result),
            ThenView::Discard => StepView::done(
                match result {
                    Ok(_) => Ok(OutcomeView::Unit),
                    Err(e) => Err(e),
                },
            ),
            ThenView::Log => self.log_then(result),
            ThenView::Installers { installers, next } => match result {
                Ok(_) => self.next_installer(installers, next),
                Err(e) => StepView::fail(e),
            },
        }
    }

    // Installing unless installed.

    pub open spec fn if_absent_start(self, method: InstallMethodView) -> StepView {
        StepView::ask(RequestView::Probe(self.path), StateView::IfAbsentProbe { method }).after(
            NotificationView::LookingForToolchain(self.name),
        )
    }

    /// An installation that is there is used as it is; otherwise the
    /// toolchain is installed.
    pub open spec fn if_absent_probed(self, method: InstallMethodView, reply: ReplyView) -> StepView {
        match reply {
            ReplyView::Status(status) => if self.is_installed(status) {
                StepView::status(Ok(UpdateStatus::Unchanged)).after(
                    NotificationView::UsingExistingToolchain(self.name),
                )
            } else {
                self.install_start(method, ThenView::Return)
            },
            _ => StepView::fail(ErrorView::UnexpectedReply),
        }
    }

    // Removing.

    pub open spec fn remove_start(self, then: AfterRemovalView) -> StepView {
        StepView::ask(RequestView::Probe(self.path), StateView::RemoveProbe { after: then })
    }

    /// Where neither a directory nor a link is there, nothing is removed and
    /// that is no error. Otherwise the update hash goes first, if the
    /// toolchain has one.
    pub open spec fn remove_probed(self, then: AfterRemovalView, reply: ReplyView) -> StepView {
        match reply {
            ReplyView::Status(status) => if status.is_directory || status.is_symlink {
                (if self.is_custom() {
                    StepView::ask(RequestView::Uninstall(self.path), StateView::RemoveRun { after: then })
                } else {
                    StepView::ask(
                        RequestView::HashFile(self.name),
                        StateView::RemoveHashLookup { after: then },
                    )
                }).after(NotificationView::UninstallingToolchain(self.name))
            } else {
                self.after_removal(then).after(NotificationView::ToolchainNotInstalled(self.name))
            },
            _ => StepView::fail(ErrorView::UnexpectedReply),
        }
    }

    pub open spec fn remove_hash_found(self, then: AfterRemovalView, reply: ReplyView) -> StepView {
        match reply {
            ReplyView::Path(file) => StepView::ask(
                RequestView::RemoveUpdateHash(file),
                StateView::RemoveHash { after: then },
            ),
            ReplyView::Failed(e) => StepView::fail(ErrorView::Host(e)),
            _ => StepView::fail(ErrorView::UnexpectedReply),
        }
    }

    pub open spec fn remove_hash_done(self, then: AfterRemovalView, reply: ReplyView) -> StepView {
        match reply {
            ReplyView::Done => StepView::ask(
                RequestView::Uninstall(self.path),
                StateView::RemoveRun { after: then },
            ),
            ReplyView::Failed(e) => StepView::fail(ErrorView::Host(e)),
            _ => StepView::fail(ErrorView::UnexpectedReply),
        }
    }

    /// Whether the uninstaller failed or not, the directory is looked at
    /// again.
    pub open spec fn remove_ran(self, then: AfterRemovalView, reply: ReplyView) -> StepView {
        match reply {
            ReplyView::Done => StepView::ask(
                RequestView::Probe(self.path),
                StateView::RemoveConfirm { failure: None, after: then },
            ),
            ReplyView::Failed(e) => StepView::ask(
                RequestView::Probe(self.path),
                StateView::RemoveConfirm { failure: Some(e), after: then },
            ),
            _ => StepView::fail(ErrorView::UnexpectedReply),
        }
    }

    /// The user is told of the removal once the directory is gone; a failure
    /// of the uninstaller is the result all the same.
    pub open spec fn remove_confirmed(
        self,
        failure: Option<Seq<char>>,
        then: AfterRemovalView,
        reply: ReplyView,
    ) -> StepView {
        match reply {
            ReplyView::Status(status) => {
                let rest = match failure {
                    Some(e) => StepView::fail(ErrorView::Host(e)),
                    None => self.after_removal(then),
                };
                if self.is_installed(status) {
                    rest
                } else {
                    rest.after(NotificationView::UninstalledToolchain(self.name))
                }
            },
            _ => StepView::fail(ErrorView::UnexpectedReply),
        }
    }

    pub open spec fn after_removal(self, then: AfterRemovalView) -> StepView {
        match then {
            AfterRemovalView::Return => StepView::done(Ok(OutcomeView::Unit)),
            AfterRemovalView::Install(installers) => self.next_installer(installers, 0),
        }
    }

    // Installing from the distribution.

    pub open spec fn dist_start(self, force: bool) -> StepView {
        StepView::ask(RequestView::TelemetryEnabled, StateView::DistTelemetry { force })
    }

    pub open spec fn dist_telemetry(self, force: bool, reply: ReplyView) -> StepView {
        match reply {
            ReplyView::Flag(log) => self.dist_inner(force, log, false),
            ReplyView::Failed(e) => StepView::fail(ErrorView::Host(e)),
            _ => StepView::fail(ErrorView::UnexpectedReply),
        }
    }

    /// A custom toolchain has no update hash and no parsed name, so the
    /// attempt ends with the parser's refusal before anything is asked.
    pub open spec fn dist_inner(self, force: bool, log: bool, if_absent: bool) -> StepView {
        match self.parsed {
            Ok(_) => StepView::ask(
                RequestView::HashFile(self.name),
                StateView::DistHashLookup { force, log, if_absent },
            ),
            Err(e) => self.after_dist(log, Err(ErrorView::Host(e))),
        }
    }

    pub open spec fn dist_method(self, update_hash: Seq<Seq<char>>, force: bool) -> InstallMethodView {
        InstallMethodView::Dist {
            desc: self.parsed->Ok_0,
            update_hash: Some(update_hash),
            download_dir: self.cfg.download_dir,
            force,
        }
    }

    pub open spec fn dist_hash_found(
        self,
        force: bool,
        log: bool,
        if_absent: bool,
        reply: ReplyView,
    ) -> StepView {
        match reply {
            ReplyView::Path(file) => match self.parsed {
                Ok(_) => if if_absent {
                    self.if_absent_start(self.dist_method(file, force))
                } else {
                    self.install_start(
                        self.dist_method(file, force),
                        if log {
                            ThenView::Log
                        } else {
                            ThenView::Return
                        },
                    )
                },
                Err(e) => self.after_dist(log, Err(ErrorView::Host(e))),
            },
            ReplyView::Failed(e) => self.after_dist(log, Err(ErrorView::Host(e))),
            _ => StepView::fail(ErrorView::UnexpectedReply),
        }
    }

    pub open spec fn after_dist(self, log: bool, result: Result<UpdateStatus, ErrorView>) -> StepView {
        if log {
            self.log_then(result)
        } else {
            StepView::status(result)
        }
    }

    // Telemetry.

    /// The attempt is recorded, as a success whatever its result.
    pub open spec fn log_then(self, result: Result<UpdateStatus, ErrorView>) -> StepView {
        StepView::ask(
            RequestView::LogTelemetry(self.telemetry, self.update_event()),
            StateView::DistLog { result },
        )
    }

    /// The result of the attempt stands, whether it could be recorded or
    /// not; the user is told where it could not.
    pub open spec fn dist_logged(
        self,
        result: Result<UpdateStatus, ErrorView>,
        reply: ReplyView,
    ) -> StepView {
        match reply {
            ReplyView::Done => StepView::status(result),
            ReplyView::Failed(e) => StepView::status(result).after(
                NotificationView::TelemetryCleanupError(e),
            ),
            _ => StepView::fail(ErrorView::UnexpectedReply),
        }
    }

    // Installing a custom toolchain from installers.

    /// Only a custom toolchain is installed from installers, and what is
    /// installed under its name is removed first.
    pub open spec fn installers_start(self, installers: Seq<Seq<char>>) -> StepView {
        if self.is_custom() {
            self.remove_start(AfterRemovalView::Install(installers))
        } else {
            StepView::fail(ErrorView::InvalidCustomOperation(self.name))
        }
    }

    /// The installer at `next` is checked and installed, after a download
    /// where it is remote; past the last one the operation has succeeded.
    pub open spec fn next_installer(self, installers: Seq<Seq<char>>, next: usize) -> StepView {
        if next >= installers.len() {
            StepView::done(Ok(OutcomeView::Unit))
        } else {
            let installer = installers[next as int];
            let rest = (next + 1) as usize;
            match installer_source(installer, parsed_url(installer)) {
                Err(e) => StepView::fail(e),
                Ok(InstallerSourceView::Remote(url)) => StepView::ask(
                    RequestView::TempFile(""@, ".tar.gz"@),
                    StateView::InstallerTemp { url, installers, next: rest },
                ),
                Ok(InstallerSourceView::Local(archive)) => self.install_start(
                    InstallMethodView::Installer(archive),
                    ThenView::Installers { installers, next: rest },
                ),
            }
        }
    }

    pub open spec fn installer_temp(
        self,
        url: Seq<char>,
        installers: Seq<Seq<char>>,
        next: usize,
        reply: ReplyView,
    ) -> StepView {
        match reply {
            ReplyView::Path(archive) => StepView::ask(
                RequestView::Download(url, archive),
                StateView::InstallerDownload { archive, installers, next },
            ),
            ReplyView::Failed(e) => StepView::fail(ErrorView::Host(e)),
            _ => StepView::fail(ErrorView::UnexpectedReply),
        }
    }

    pub open spec fn installer_downloaded(
        self,
        archive: Seq<Seq<char>>,
        installers: Seq<Seq<char>>,
        next: usize,
        reply: ReplyView,
    ) -> StepView {
        match reply {
            ReplyView::Done => self.install_start(
                InstallMethodView::Installer(archive),
                ThenView::Installers { installers, next },
            ),
            ReplyView::Failed(e) => StepView::fail(ErrorView::Host(e)),
            _ => StepView::fail(ErrorView::UnexpectedReply),
        }
    }

    // Installing a custom toolchain from a directory.

    /// Only a custom toolchain is installed from a directory, and the
    /// directory is checked before anything is changed.
    pub open spec fn dir_start(self, src: Seq<Seq<char>>, link: bool) -> StepView {
        if self.is_custom() {
            StepView::ask(RequestView::Probe(src.push("bin"@)), StateView::DirBin { src, link })
        } else {
            StepView::fail(ErrorView::InvalidCustomOperation(self.name))
        }
    }

    pub open spec fn dir_bin(self, src: Seq<Seq<char>>, link: bool, reply: ReplyView) -> StepView {
        match reply {
            ReplyView::Status(status) => if status.is_directory {
                StepView::ask(
                    RequestView::Probe(src.push("bin"@).push(self.main_binary())),
                    StateView::DirMain { src, link },
                )
            } else {
                StepView::fail(ErrorView::NotADirectory(src.push("bin"@)))
            },
            _ => StepView::fail(ErrorView::UnexpectedReply),
        }
    }

    pub open spec fn dir_main(self, src: Seq<Seq<char>>, link: bool, reply: ReplyView) -> StepView {
        match reply {
            ReplyView::Status(status) => if !status.is_file {
                StepView::fail(ErrorView::NotAFile(src.push("bin"@).push(self.main_binary())))
            } else if link {
                StepView::ask(RequestView::Absolute(src), StateView::DirAbsolute)
            } else {
                self.install_start(InstallMethodView::Copy(src), ThenView::Discard)
            },
            _ => StepView::fail(ErrorView::UnexpectedReply),
        }
    }

    pub open spec fn dir_absolute(self, reply: ReplyView) -> StepView {
        match reply {
            ReplyView::Path(src) => self.install_start(
                InstallMethodView::Link(src),
                ThenView::Discard,
            ),
            ReplyView::Failed(e) => StepView::fail(ErrorView::Host(e)),
            _ => StepView::fail(ErrorView::UnexpectedReply),
        }
    }
}

impl<'a> Toolchain<'a> {
    fn own_name(&self) -> (name: String)
        ensures
            name@ == self@.name,
    {
        self.name().to_owned()
    }

    pub(crate) fn install_start(&self, method: InstallMethod, then: Then) -> (step: Step)
        ensures
            step@ == self@.install_start(method@, then@),
    {
        Step::ask(Request::Probe(self.path().clone()), State::InstallProbe { method, then })
    }

    pub(crate) fn install_probed(&self, method: InstallMethod, then: Then, reply: Reply) -> (step:
        Step)
        ensures
            step@ == self@.install_probed(method@, then@, reply@),
    {
        match reply {
            Reply::Status(status) => {
                let existed = self.is_installed(status);
                let first = if existed {
                    Notification::UpdatingToolchain(self.own_name())
                } else {
                    Notification::InstallingToolchain(self.own_name())
                };
                Step::ask(
                    Request::Install(method, self.path().clone()),
                    State::InstallRun { existed, then },
                ).after(Notification::ToolchainDirectory(self.path().clone(), self.own_name())).after(
                    first,
                )
            },
            _ => Step::fail(Error::UnexpectedReply),
        }
    }

    pub(crate) fn install_ran(&self, existed: bool, then: Then, reply: Reply) -> (step: Step)
        ensures
            step@ == self@.install_ran(existed, then@, reply@),
    {
        match reply {
            Reply::Flag(changed) => {
                let notice = if changed {
                    Notification::InstalledToolchain(self.own_name())
                } else {
                    Notification::UpdateHashMatches
                };
                self.after_install(then, Ok(classify(existed, changed))).after(notice)
            },
            Reply::Failed(e) => self.after_install(then, Err(Error::Host(e))),
            _ => Step::fail(Error::UnexpectedReply),
        }
    }

    pub(crate) fn after_install(&self, then: Then, result: Result<UpdateStatus, Error>) -> (step:
        Step)
        ensures
            step@ == self@.after_install(then@, status_result(result)),
    {
        match then {
            Then::Return => Step::status(result),
            Then::Discard => match result {
                Ok(_) => Step::done(Ok(Outcome::Unit)),
                Err(e) => Step::done(Err(e)),
            },
            Then::Log => self.log_then(result),
            Then::Installers { installers, next } => match result {
                Ok(_) => self.next_installer(installers, next),
                Err(e) => Step::fail(e),
            },
        }
    }

    pub(crate) fn if_absent_start(&self, method: InstallMethod) -> (step: Step)
        ensures
            step@ == self@.if_absent_start(method@),
    {
        Step::ask(Request::Probe(self.path().clone()), State::IfAbsentProbe { method }).after(
            Notification::LookingForToolchain(self.own_name()),
        )
    }

    pub(crate) fn if_absent_probed(&self, method: InstallMethod, reply: Reply) -> (step: Step)
        ensures
            step@ == self@.if_absent_probed(method@, reply@),
    {
        match reply {
            Reply::Status(status) => {
                if self.is_installed(status) {
                    Step::status(Ok(UpdateStatus::Unchanged)).after(
                        Notification::UsingExistingToolchain(self.own_name()),
                    )
                } else {
                    self.install_start(method, Then::Return)
                }
            },
            _ => Step::fail(Error::UnexpectedReply),
        }
    }

    pub(crate) fn remove_start(&self, then: AfterRemoval) -> (step: Step)
        ensures
            step@ == self@.remove_start(then@),
    {
        Step::ask(Request::Probe(self.path().clone()), State::RemoveProbe { after: then })
    }

    pub(crate) fn remove_probed(&self, then: AfterRemoval, reply: Reply) -> (step: Step)
        ensures
            step@ == self@.remove_probed(then@, reply@),
    {
        match reply {
            Reply::Status(status) => {
                if status.is_directory || status.is_symlink {
                    let begun = if self.is_custom() {
                        Step::ask(Request::Uninstall(self.path().clone()), State::RemoveRun { after: then })
                    } else {
                        Step::ask(
                            Request::HashFile(self.own_name()),
                            State::RemoveHashLookup { after: then },
                        )
                    };
                    begun.after(Notification::UninstallingToolchain(self.own_name()))
                } else {
                    self.after_removal(then).after(
                        Notification::ToolchainNotInstalled(self.own_name()),
                    )
                }
            },
            _ => Step::fail(Error::UnexpectedReply),
        }
    }

    pub(crate) fn remove_hash_found(&self, then: AfterRemoval, reply: Reply) -> (step: Step)
        ensures
            step@ == self@.remove_hash_found(then@, reply@),
    {
        match reply {
            Reply::Path(file) => Step::ask(
                Request::RemoveUpdateHash(file),
                State::RemoveHash { after: then },
            ),
            Reply::Failed(e) => Step::fail(Error::Host(e)),
            _ => Step::fail(Error::UnexpectedReply),
        }
    }

    pub(crate) fn remove_hash_done(&self, then: AfterRemoval, reply: Reply) -> (step: Step)
        ensures
            step@ == self@.remove_hash_done(then@, reply@),
    {
        match reply {
            Reply::Done => Step::ask(
                Request::Uninstall(self.path().clone()),
                State::RemoveRun { after: then },
            ),
            Reply::Failed(e) => Step::fail(Error::Host(e)),
            _ => Step::fail(Error::UnexpectedReply),
        }
    }

    pub(crate) fn remove_ran(&self, then: AfterRemoval, reply: Reply) -> (step: Step)
        ensures
            step@ == self@.remove_ran(then@, reply@),
    {
        match reply {
            Reply::Done => Step::ask(
                Request::Probe(self.path().clone()),
                State::RemoveConfirm { failure: None, after: then },
            ),
            Reply::Failed(e) => Step::ask(
                Request::Probe(self.path().clone()),
                State::RemoveConfirm { failure: Some(e), after: then },
            ),
            _ => Step::fail(Error::UnexpectedReply),
        }
    }

    pub(crate) fn remove_confirmed(
        &self,
        failure: Option<HostError>,
        then: AfterRemoval,
        reply: Reply,
    ) -> (step: Step)
        ensures
            step@ == self@.remove_confirmed(failure_option(failure), then@, reply@),
    {
        match reply {
            Reply::Status(status) => {
                let rest = match failure {
                    Some(e) => Step::fail(Error::Host(e)),
                    None => self.after_removal(then),
                };
                if self.is_installed(status) {
                    rest
                } else {
                    rest.after(Notification::UninstalledToolchain(self.own_name()))
                }
            },
            _ => Step::fail(Error::UnexpectedReply),
        }
    }

    pub(crate) fn after_removal(&self, then: AfterRemoval) -> (step: Step)
        ensures
            step@ == self@.after_removal(then@),
    {
        match then {
            AfterRemoval::Return => Step::done(Ok(Outcome::Unit)),
            AfterRemoval::Install(installers) => self.next_installer(installers, 0),
        }
    }

    pub(crate) fn dist_start(&self, force: bool) -> (step: Step)
        ensures
            step@ == self@.dist_start(force),
    {
        Step::ask(Request::TelemetryEnabled, State::DistTelemetry { force })
    }

    pub(crate) fn dist_telemetry(&self, force: bool, reply: Reply) -> (step: Step)
        ensures
            step@ == self@.dist_telemetry(force, reply@),
    {
        match reply {
            Reply::Flag(log) => self.dist_inner(force, log, false),
            Reply::Failed(e) => Step::fail(Error::Host(e)),
            _ => Step::fail(Error::UnexpectedReply),
        }
    }

    pub(crate) fn dist_inner(&self, force: bool, log: bool, if_absent: bool) -> (step: Step)
        ensures
            step@ == self@.dist_inner(force, log, if_absent),
    {
        match self.desc() {
            Ok(_) => Step::ask(
                Request::HashFile(self.own_name()),
                State::DistHashLookup { force, log, if_absent },
            ),
            Err(e) => self.after_dist(log, Err(e)),
        }
    }

    pub(crate) fn dist_hash_found(&self, force: bool, log: bool, if_absent: bool, reply: Reply) -> (step:
        Step)
        ensures
            step@ == self@.dist_hash_found(force, log, if_absent, reply@),
    {
        match reply {
            Reply::Path(file) => match self.desc() {
                Ok(desc) => {
                    let method = InstallMethod::Dist {
                        desc,
                        update_hash: Some(file),
                        download: self.download_cfg(),
                        force,
                    };
                    assert(method@ == self@.dist_method(file@, force));
                    if if_absent {
                        self.if_absent_start(method)
                    } else {
                        self.install_start(
                            method,
                            if log {
                                Then::Log
                            } else {
                                Then::Return
                            },
                        )
                    }
                },
                Err(e) => self.after_dist(log, Err(e)),
            },
            Reply::Failed(e) => self.after_dist(log, Err(Error::Host(e))),
            _ => Step::fail(Error::UnexpectedReply),
        }
    }

    pub(crate) fn after_dist(&self, log: bool, result: Result<UpdateStatus, Error>) -> (step: Step)
        ensures
            step@ == self@.after_dist(log, status_result(result)),
    {
        if log {
            self.log_then(result)
        } else {
            Step::status(result)
        }
    }

    pub(crate) fn log_then(&self, result: Result<UpdateStatus, Error>) -> (step: Step)
        ensures
            step@ == self@.log_then(status_result(result)),
    {
        let event = TelemetryEvent::ToolchainUpdate { toolchain: self.own_name(), success: true };
        Step::ask(
            Request::LogTelemetry(self.telemetry_dir().clone(), event),
            State::DistLog { result },
        )
    }

    pub(crate) fn dist_logged(&self, result: Result<UpdateStatus, Error>, reply: Reply) -> (step:
        Step)
        ensures
            step@ == self@.dist_logged(status_result(result), reply@),
    {
        match reply {
            Reply::Done => Step::status(result),
            Reply::Failed(e) => Step::status(result).after(Notification::TelemetryCleanupError(e)),
            _ => Step::fail(Error::UnexpectedReply),
        }
    }

    pub(crate) fn installers_start(&self, installers: Vec<String>) -> (step: Step)
        ensures
            step@ == self@.installers_start(views(installers@)),
    {
        match self.ensure_custom() {
            Ok(_) => self.remove_start(AfterRemoval::Install(installers)),
            Err(e) => Step::fail(e),
        }
    }

    pub(crate) fn next_installer(&self, installers: Vec<String>, next: usize) -> (step: Step)
        ensures
            step@ == self@.next_installer(views(installers@), next),
    {
        if next >= installers.len() {
            Step::done(Ok(Outcome::Unit))
        } else {
            let source = classify_installer(installers[next].as_str());
            let rest = next + 1;
            match source {
                Err(e) => Step::fail(e),
                Ok(InstallerSource::Remote(url)) => Step::ask(
                    Request::TempFile("".to_owned(), ".tar.gz".to_owned()),
                    State::InstallerTemp { url, installers, next: rest },
                ),
                Ok(InstallerSource::Local(archive)) => self.install_start(
                    InstallMethod::Installer(archive),
                    Then::Installers { installers, next: rest },
                ),
            }
        }
    }

    pub(crate) fn installer_temp(
        &self,
        url: String,
        installers: Vec<String>,
        next: usize,
        reply: Reply,
    ) -> (step: Step)
        ensures
            step@ == self@.installer_temp(url@, views(installers@), next, reply@),
    {
        match reply {
            Reply::Path(archive) => {
                let target = archive.clone();
                Step::ask(
                    Request::Download(url, target),
                    State::InstallerDownload { archive, installers, next },
                )
            },
            Reply::Failed(e) => Step::fail(Error::Host(e)),
            _ => Step::fail(Error::UnexpectedReply),
        }
    }

    pub(crate) fn installer_downloaded(
        &self,
        archive: FsPath,
        installers: Vec<String>,
        next: usize,
        reply: Reply,
    ) -> (step: Step)
        ensures
            step@ == self@.installer_downloaded(archive@, views(installers@), next, reply@),
    {
        match reply {
            Reply::Done => self.install_start(
                InstallMethod::Installer(archive),
                Then::Installers { installers, next },
            ),
            Reply::Failed(e) => Step::fail(Error::Host(e)),
            _ => Step::fail(Error::UnexpectedReply),
        }
    }

    fn main_binary(&self) -> (name: String)
        ensures
            name@ == self@.main_binary(),
    {
        "lean".to_owned().concat(self.cfg().platform.exe_suffix())
    }

    pub(crate) fn dir_start(&self, src: FsPath, link: bool) -> (step: Step)
        ensures
            step@ == self@.dir_start(src@, link),
    {
        match self.ensure_custom() {
            Ok(_) => Step::ask(Request::Probe(src.join("bin")), State::DirBin { src, link }),
            Err(e) => Step::fail(e),
        }
    }

    pub(crate) fn dir_bin(&self, src: FsPath, link: bool, reply: Reply) -> (step: Step)
        ensures
            step@ == self@.dir_bin(src@, link, reply@),
    {
        match reply {
            Reply::Status(status) => {
                let bin = src.join("bin");
                if status.is_directory {
                    let main = bin.join(self.main_binary().as_str());
                    Step::ask(Request::Probe(main), State::DirMain { src, link })
                } else {
                    Step::fail(Error::NotADirectory(bin))
                }
            },
            _ => Step::fail(Error::UnexpectedReply),
        }
    }

    pub(crate) fn dir_main(&self, src: FsPath, link: bool, reply: Reply) -> (step: Step)
        ensures
            step@ == self@.dir_main(src@, link, reply@),
    {
        match reply {
            Reply::Status(status) => {
                if !status.is_file {
                    let main = src.join("bin").join(self.main_binary().as_str());
                    Step::fail(Error::NotAFile(main))
                } else if link {
                    Step::ask(Request::Absolute(src), State::DirAbsolute)
                } else {
                    self.install_start(InstallMethod::Copy(src), Then::Discard)
                }
            },
            _ => Step::fail(Error::UnexpectedReply),
        }
    }

    pub(crate) fn dir_absolute(&self, reply: Reply) -> (step: Step)
        ensures
            step@ == self@.dir_absolute(reply@),
    {
        match reply {
            Reply::Path(src) => self.install_start(InstallMethod::Link(src), Then::Discard),
            Reply::Failed(e) => Step::fail(Error::Host(e)),
            _ => Step::fail(Error::UnexpectedReply),
        }
    }
}

} // verus!
