//! The operations of a toolchain that need the host, and how the host
//! resumes them.
//!
//! An operation returns its first [`Step`]. The host tells the user what the
//! step's notices say; where the step asks for work, the host does it and
//! calls [`Toolchain::resume`] with the state of the step and its reply, and
//! so on until a step is done.

use crate::command::HostEnv;
use crate::execution::is_companion;
use crate::install::InstallMethod;
use crate::paths::FsPath;
use crate::requests::{Reply, ReplyView, RequestView};
use crate::steps::{
    AfterRemoval, AfterRemovalView, NextView, State, StateView, Step, StepView, Then, ThenView,
};
use crate::text::views;
use crate::toolchain::{Toolchain, ToolchainView};
use vstd::prelude::*;

verus! {

impl ToolchainView {
    /// The step that follows when the host answers with `reply` the request
    /// that was made in `state`.
    pub open spec fn resume(self, state: StateView, reply: ReplyView) -> StepView {
        match state {
            StateView::InstallProbe { method, then } => self.install_probed(method, then, reply),
            StateView::InstallRun { existed, then } => self.install_ran(existed, then, reply),
            StateView::IfAbsentProbe { method } => self.if_absent_probed(method, reply),
            StateView::RemoveProbe { after: then } => self.remove_probed(then, reply),
            StateView::RemoveHashLookup { after: then } => self.remove_hash_found(then, reply),
            StateView::RemoveHash { after: then } => self.remove_hash_done(then, reply),
            StateView::RemoveRun { after: then } => self.remove_ran(then, reply),
            StateView::RemoveConfirm { failure, after: then } => self.remove_confirmed(
                failure,
                then,
                reply,
            ),
            StateView::DistTelemetry { force } => self.dist_telemetry(force, reply),
            StateView::DistHashLookup { force, log, if_absent } => self.dist_hash_found(
                force,
                log,
                if_absent,
                reply,
            ),
            StateView::DistLog { result } => self.dist_logged(result, reply),
            StateView::InstallerTemp { url, installers, next } => self.installer_temp(
                url,
                installers,
                next,
                reply,
            ),
            StateView::InstallerDownload { archive, installers, next } => self.installer_downloaded(
                archive,
                installers,
                next,
                reply,
            ),
            StateView::DirBin { src, link } => self.dir_bin(src, link, reply),
            StateView::DirMain { src, link } => self.dir_main(src, link, reply),
            StateView::DirAbsolute => self.dir_absolute(reply),
            StateView::CommandProbe { binary, env } => self.command_probed(binary, env, reply),
            StateView::CommandLocate { binary, env } => self.command_located(binary, env, reply),
            StateView::FallbackProbe { primary_name, primary_path, env } => self.fallback_probed(
                primary_name,
                primary_path,
                env,
                reply,
            ),
            StateView::FallbackPrimaryProbe { primary_name, env } => self.fallback_primary_probed(
                primary_name,
                env,
                reply,
            ),
            StateView::FallbackDir { primary_name, env } => self.fallback_dir_made(
                primary_name,
                env,
                reply,
            ),
            StateView::FallbackStale { primary_name, env } => self.fallback_stale(
                primary_name,
                env,
                reply,
            ),
            StateView::FallbackUnlink { primary_name, env } => self.fallback_unlinked(
                primary_name,
                env,
                reply,
            ),
            StateView::FallbackLink { primary_name, env } => self.fallback_linked(
                primary_name,
                env,
                reply,
            ),
        }
    }

    /// Installers are only ever waiting to be installed for a custom
    /// toolchain.
    pub open spec fn admits_then(self, then: ThenView) -> bool {
        then is Installers ==> self.is_custom()
    }

    pub open spec fn admits_after_removal(self, then: AfterRemovalView) -> bool {
        then is Install ==> self.is_custom()
    }

    /// A state in which every method that is still to be used suits the
    /// kind of this toolchain.
    pub open spec fn admits(self, state: StateView) -> bool {
        match state {
            StateView::InstallProbe { method, then } => method.suits(self.is_custom())
                && self.admits_then(then),
            StateView::InstallRun { existed, then } => self.admits_then(then),
            StateView::IfAbsentProbe { method } => method.suits(self.is_custom()),
            StateView::RemoveProbe { after: then } => self.admits_after_removal(then),
            StateView::RemoveHashLookup { after: then } => self.admits_after_removal(then),
            StateView::RemoveHash { after: then } => self.admits_after_removal(then),
            StateView::RemoveRun { after: then } => self.admits_after_removal(then),
            StateView::RemoveConfirm { failure, after: then } => self.admits_after_removal(then),
            StateView::InstallerTemp { .. } => self.is_custom(),
            StateView::InstallerDownload { .. } => self.is_custom(),
            StateView::DirBin { .. } => self.is_custom(),
            StateView::DirMain { .. } => self.is_custom(),
            StateView::DirAbsolute => self.is_custom(),
            _ => true,
        }
    }

    /// A step that leaves an admitted state behind and that installs, if it
    /// installs, into this toolchain's directory by a method that suits it.
    pub open spec fn is_legal(self, step: StepView) -> bool {
        match step.next {
            NextView::Ask(request, state) => {
                &&& self.admits(state)
                &&& request matches RequestView::Install(method, dest) ==> method.suits(
                    self.is_custom(),
                ) && dest == self.path
            },
            NextView::Done(_) => true,
        }
    }
}

/// The installers that are still to be handled, counted in steps.
pub open spec fn installer_steps(installers: Seq<Seq<char>>, next: usize) -> nat {
    if next <= installers.len() {
        (5 * (installers.len() - next)) as nat
    } else {
        0
    }
}

pub open spec fn steps_after_install(then: ThenView) -> nat {
    match then {
        ThenView::Return => 0,
        ThenView::Discard => 0,
        ThenView::Log => 1,
        ThenView::Installers { installers, next } => installer_steps(installers, next),
    }
}

pub open spec fn steps_after_removal(then: AfterRemovalView) -> nat {
    match then {
        AfterRemovalView::Return => 0,
        AfterRemovalView::Install(installers) => installer_steps(installers, 0),
    }
}

/// A bound on the number of replies that an operation in `state` still
/// waits for.
pub open spec fn steps_left(state: StateView) -> nat {
    match state {
        StateView::InstallProbe { method, then } => 2 + steps_after_install(then),
        StateView::InstallRun { existed, then } => 1 + steps_after_install(then),
        StateView::IfAbsentProbe { method } => 3,
        StateView::RemoveProbe { after: then } => 5 + steps_after_removal(then),
        StateView::RemoveHashLookup { after: then } => 4 + steps_after_removal(then),
        StateView::RemoveHash { after: then } => 3 + steps_after_removal(then),
        StateView::RemoveRun { after: then } => 2 + steps_after_removal(then),
        StateView::RemoveConfirm { failure, after: then } => 1 + steps_after_removal(then),
        StateView::DistTelemetry { force } => 5,
        StateView::DistHashLookup { force, log, if_absent } => 4,
        StateView::DistLog { result } => 1,
        StateView::InstallerTemp { url, installers, next } => 4 + installer_steps(
            installers,
            next,
        ),
        StateView::InstallerDownload { archive, installers, next } => 3 + installer_steps(
            installers,
            next,
        ),
        StateView::DirBin { src, link } => 5,
        StateView::DirMain { src, link } => 4,
        StateView::DirAbsolute => 3,
        StateView::CommandProbe { binary, env } => 2,
        StateView::CommandLocate { binary, env } => 1,
        StateView::FallbackProbe { primary_name, primary_path, env } => 6,
        StateView::FallbackPrimaryProbe { primary_name, env } => 5,
        StateView::FallbackDir { primary_name, env } => 4,
        StateView::FallbackStale { primary_name, env } => 3,
        StateView::FallbackUnlink { primary_name, env } => 2,
        StateView::FallbackLink { primary_name, env } => 1,
    }
}

/// The installers that a state holds, if it holds any.
pub open spec fn held_installers(state: StateView) -> Option<Seq<Seq<char>>> {
    match state {
        StateView::InstallProbe { method, then: ThenView::Installers { installers, next } } => Some(
            installers,
        ),
        StateView::InstallRun { existed, then: ThenView::Installers { installers, next } } => Some(
            installers,
        ),
        StateView::RemoveProbe { after: AfterRemovalView::Install(installers) } => Some(installers),
        StateView::RemoveHashLookup { after: AfterRemovalView::Install(installers) } => Some(
            installers,
        ),
        StateView::RemoveHash { after: AfterRemovalView::Install(installers) } => Some(installers),
        StateView::RemoveRun { after: AfterRemovalView::Install(installers) } => Some(installers),
        StateView::RemoveConfirm { failure, after: AfterRemovalView::Install(installers) } => Some(
            installers,
        ),
        StateView::InstallerTemp { url, installers, next } => Some(installers),
        StateView::InstallerDownload { archive, installers, next } => Some(installers),
        _ => None,
    }
}

/// A state whose list of installers, if it holds one, is one that a vector
/// can hold.
pub open spec fn is_bounded(state: StateView) -> bool {
    held_installers(state) matches Some(installers) ==> installers.len() <= usize::MAX
}

/// Every reply brings an operation nearer to its end: no operation goes on
/// for ever, whatever the host answers.
pub proof fn lemma_resume_makes_progress(tc: ToolchainView, state: StateView, reply: ReplyView)
    requires
        is_bounded(state),
    ensures
        tc.resume(state, reply).next matches NextView::Ask(_, after) ==> is_bounded(after)
            && steps_left(after) < steps_left(state),
{
}

/// From an admitted state every reply leads to a legal step: no path through
/// an operation installs by a method that does not suit the toolchain.
pub proof fn lemma_resume_is_legal(tc: ToolchainView, state: StateView, reply: ReplyView)
    requires
        tc.admits(state),
    ensures
        tc.is_legal(tc.resume(state, reply)),
{
}

impl<'a> Toolchain<'a> {
    /// Resumes an operation with the host's reply to the request that the
    /// operation made in `state`.
    pub fn resume(&self, state: State, reply: Reply) -> (step: Step)
        ensures
            step@ == self@.resume(state@, reply@),
            self@.admits(state@) ==> self@.is_legal(step@),
            is_bounded(state@) ==> (step@.next matches NextView::Ask(_, after) ==> is_bounded(after)
                && steps_left(after) < steps_left(state@)),
    {
        proof {
            if self@.admits(state@) {
                lemma_resume_is_legal(self@, state@, reply@);
            }
            if is_bounded(state@) {
                lemma_resume_makes_progress(self@, state@, reply@);
            }
        }
        match state {
            State::InstallProbe { method, then } => self.install_probed(method, then, reply),
            State::InstallRun { existed, then } => self.install_ran(existed, then, reply),
            State::IfAbsentProbe { method } => self.if_absent_probed(method, reply),
            State::RemoveProbe { after: then } => self.remove_probed(then, reply),
            State::RemoveHashLookup { after: then } => self.remove_hash_found(then, reply),
            State::RemoveHash { after: then } => self.remove_hash_done(then, reply),
            State::RemoveRun { after: then } => self.remove_ran(then, reply),
            State::RemoveConfirm { failure, after: then } => self.remove_confirmed(failure, then, reply),
            State::DistTelemetry { force } => self.dist_telemetry(force, reply),
            State::DistHashLookup { force, log, if_absent } => self.dist_hash_found(
                force,
                log,
                if_absent,
                reply,
            ),
            State::DistLog { result } => self.dist_logged(result, reply),
            State::InstallerTemp { url, installers, next } => self.installer_temp(
                url,
                installers,
                next,
                reply,
            ),
            State::InstallerDownload { archive, installers, next } => self.installer_downloaded(
                archive,
                installers,
                next,
                reply,
            ),
            State::DirBin { src, link } => self.dir_bin(src, link, reply),
            State::DirMain { src, link } => self.dir_main(src, link, reply),
            State::DirAbsolute => self.dir_absolute(reply),
            State::CommandProbe { binary, env } => self.command_probed(binary, env, reply),
            State::CommandLocate { binary, env } => self.command_located(binary, env, reply),
            State::FallbackProbe { primary_name, primary_path, env } => self.fallback_probed(
                primary_name,
                primary_path,
                env,
                reply,
            ),
            State::FallbackPrimaryProbe { primary_name, env } => self.fallback_primary_probed(
                primary_name,
                env,
                reply,
            ),
            State::FallbackDir { primary_name, env } => self.fallback_dir_made(
                primary_name,
                env,
                reply,
            ),
            State::FallbackStale { primary_name, env } => self.fallback_stale(
                primary_name,
                env,
                reply,
            ),
            State::FallbackUnlink { primary_name, env } => self.fallback_unlinked(
                primary_name,
                env,
                reply,
            ),
            State::FallbackLink { primary_name, env } => self.fallback_linked(
                primary_name,
                env,
                reply,
            ),
        }
    }

    /// Removes the toolchain. Removing what is not installed succeeds.
    pub fn remove(&self) -> (step: Step)
        ensures
            step@ == self@.remove_start(AfterRemovalView::Return),
            self@.is_legal(step@),
    {
        self.remove_start(AfterRemoval::Return)
    }

    /// Installs or updates the toolchain by `method`, which must suit it.
    pub fn install(&self, method: InstallMethod) -> (step: Step)
        requires
            method@.suits(self@.is_custom()),
        ensures
            step@ == self@.install_start(method@, ThenView::Return),
            self@.is_legal(step@),
    {
        self.install_start(method, Then::Return)
    }

    /// Installs the toolchain by `method`, which must suit it, unless it is
    /// installed already.
    pub fn install_if_not_installed(&self, method: InstallMethod) -> (step: Step)
        requires
            method@.suits(self@.is_custom()),
        ensures
            step@ == self@.if_absent_start(method@),
            self@.is_legal(step@),
    {
        self.if_absent_start(method)
    }

    /// Installs or updates the toolchain from the distribution, recording
    /// the attempt where telemetry is on.
    pub fn install_from_dist(&self, force_update: bool) -> (step: Step)
        ensures
            step@ == self@.dist_start(force_update),
            self@.is_legal(step@),
    {
        self.dist_start(force_update)
    }

    /// Installs or updates the toolchain from the distribution.
    pub fn install_from_dist_inner(&self, force_update: bool) -> (step: Step)
        ensures
            step@ == self@.dist_inner(force_update, false, false),
            self@.is_legal(step@),
    {
        self.dist_inner(force_update, false, false)
    }

    /// Installs or updates the toolchain from the distribution and records
    /// the attempt.
    pub fn install_from_dist_with_telemetry(&self, force_update: bool) -> (step: Step)
        ensures
            step@ == self@.dist_inner(force_update, true, false),
            self@.is_legal(step@),
    {
        self.dist_inner(force_update, true, false)
    }

    /// Installs the toolchain from the distribution unless it is installed
    /// already.
    pub fn install_from_dist_if_not_installed(&self) -> (step: Step)
        ensures
            step@ == self@.dist_inner(false, false, true),
            self@.is_legal(step@),
    {
        self.dist_inner(false, false, true)
    }

    /// Installs a custom toolchain from archives, each a local file or a
    /// URL, after removing what is installed under its name.
    pub fn install_from_installers(&self, installers: Vec<String>) -> (step: Step)
        ensures
            step@ == self@.installers_start(views(installers@)),
            self@.is_legal(step@),
    {
        self.installers_start(installers)
    }

    /// Installs a custom toolchain from a directory, by a link to it or by
    /// a copy of it.
    pub fn install_from_dir(&self, src: FsPath, link: bool) -> (step: Step)
        ensures
            step@ == self@.dir_start(src@, link),
            self@.is_legal(step@),
    {
        self.dir_start(src, link)
    }

    /// Creates the command that runs a binary of the toolchain.
    pub fn create_command(&self, binary: &str, env: HostEnv) -> (step: Step)
        ensures
            step@ == self@.command_start(binary@, env@),
    {
        self.command_start(binary, env)
    }

    /// Creates the command that runs this toolchain's companion tool for
    /// another toolchain, the primary one. Both are taken to live on this
    /// toolchain's platform.
    pub fn create_fallback_command(&self, binary: &str, primary_toolchain: &Toolchain, env: HostEnv) -> (step:
        Step)
        requires
            is_companion(binary@),
        ensures
            step@ == self@.fallback_start(primary_toolchain@.name, primary_toolchain@.path, env@),
    {
        self.fallback_start(
            primary_toolchain.name().to_owned(),
            primary_toolchain.path().clone(),
            env,
        )
    }
}

} // verus!
