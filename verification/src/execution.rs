//! Creating the command that runs a binary of a toolchain, and the command
//! that lets a toolchain borrow a companion tool from another one.

use crate::command::{
    executable_name, file_name, lowercase, recursion_depth, recursion_depth_spec, CommandPlan,
    CommandView, EnvChangeView, HostEnv, HostEnvView,
};
use crate::errors::{Error, ErrorView, FallbackStep};
use crate::paths::FsPath;
use crate::requests::{Reply, ReplyView, Request, RequestView};
use crate::steps::{Outcome, OutcomeView, State, StateView, Step, StepView};
use crate::toolchain::{Toolchain, ToolchainView};
use vstd::prelude::*;
use vstd::string::StringExecFns;

verus! {

/// The names under which the companion tool may be asked for.
pub open spec fn is_companion(binary: Seq<char>) -> bool {
    binary == "leanpkg"@ || binary == "leanpkg.exe"@
}

impl ToolchainView {
    /// The path of a file among the toolchain's binaries.
    pub open spec fn bin_path(self, file: Seq<char>) -> Seq<Seq<char>> {
        self.path.push("bin"@).push(file)
    }

    // Creating a command.

    pub open spec fn command_start(self, binary: Seq<char>, env: HostEnvView) -> StepView {
        StepView::ask(
            RequestView::Probe(self.path),
            StateView::CommandProbe {
                binary: file_name(binary, lowercase(binary), self.cfg.platform.exe_suffix_spec()),
                env,
            },
        )
    }

    pub open spec fn command_probed(self, binary: Seq<char>, env: HostEnvView, reply: ReplyView) -> StepView {
        match reply {
            ReplyView::Status(status) => if self.is_installed(status) {
                StepView::ask(
                    RequestView::Probe(self.bin_path(binary)),
                    StateView::CommandLocate { binary, env },
                )
            } else {
                StepView::fail(ErrorView::ToolchainNotInstalled(self.name))
            },
            _ => StepView::fail(ErrorView::UnexpectedReply),
        }
    }

    /// A binary that the toolchain holds is run from there. One that it
    /// lacks is left to the search path, unless the depth of re-entrant
    /// invocations has reached its limit.
    pub open spec fn command_located(self, binary: Seq<char>, env: HostEnvView, reply: ReplyView) -> StepView {
        match reply {
            ReplyView::Status(status) => if status.is_file {
                StepView::done(Ok(OutcomeView::Command(self.command(self.bin_path(binary), env))))
            } else if recursion_depth_spec(env.recursion_count) >= self.cfg.recursion_limit {
                StepView::fail(ErrorView::BinaryNotFound(self.name, binary))
            } else {
                StepView::done(Ok(OutcomeView::Command(self.command(seq![binary], env))))
            },
            _ => StepView::fail(ErrorView::UnexpectedReply),
        }
    }

    // Creating a fallback command.

    /// The companion tool among this toolchain's binaries.
    pub open spec fn companion(self) -> Seq<Seq<char>> {
        self.bin_path("leanpkg"@ + self.cfg.platform.exe_suffix_spec())
    }

    /// The directory that holds the hard link to the companion tool.
    pub open spec fn fallback_dir(self) -> Seq<Seq<char>> {
        self.cfg.elan_dir.push("fallback"@)
    }

    pub open spec fn fallback_file(self) -> Seq<Seq<char>> {
        self.fallback_dir().push("leanpkg.exe"@)
    }

    /// The process that runs the companion tool for the primary toolchain:
    /// its environment is that of this toolchain, but names the primary one.
    pub open spec fn fallback_command(
        self,
        program: Seq<Seq<char>>,
        primary_name: Seq<char>,
        env: HostEnvView,
    ) -> CommandView {
        CommandView {
            program,
            env: self.env_changes(env).push(EnvChangeView::SetText("ELAN_TOOLCHAIN"@, primary_name)),
        }
    }

    pub open spec fn fallback_start(
        self,
        primary_name: Seq<char>,
        primary_path: Seq<Seq<char>>,
        env: HostEnvView,
    ) -> StepView {
        StepView::ask(
            RequestView::Probe(self.path),
            StateView::FallbackProbe { primary_name, primary_path, env },
        )
    }

    pub open spec fn fallback_probed(
        self,
        primary_name: Seq<char>,
        primary_path: Seq<Seq<char>>,
        env: HostEnvView,
        reply: ReplyView,
    ) -> StepView {
        match reply {
            ReplyView::Status(status) => if self.is_installed(status) {
                StepView::ask(
                    RequestView::Probe(primary_path),
                    StateView::FallbackPrimaryProbe { primary_name, env },
                )
            } else {
                StepView::fail(ErrorView::ToolchainNotInstalled(self.name))
            },
            _ => StepView::fail(ErrorView::UnexpectedReply),
        }
    }

    /// Where a process looks for executables beside its own image first,
    /// the companion tool is run through a hard link in a directory of its
    /// own; elsewhere it is run where it is.
    pub open spec fn fallback_primary_probed(
        self,
        primary_name: Seq<char>,
        env: HostEnvView,
        reply: ReplyView,
    ) -> StepView {
        match reply {
            ReplyView::Status(status) => if !self.is_installed(status) {
                StepView::fail(ErrorView::ToolchainNotInstalled(primary_name))
            } else if self.cfg.platform is Windows {
                StepView::ask(
                    RequestView::CreateDirAll(self.fallback_dir()),
                    StateView::FallbackDir { primary_name, env },
                )
            } else {
                StepView::done(
                    Ok(
                        OutcomeView::Command(
                            self.fallback_command(self.companion(), primary_name, env),
                        ),
                    ),
                )
            },
            _ => StepView::fail(ErrorView::UnexpectedReply),
        }
    }

    pub open spec fn fallback_dir_made(self, primary_name: Seq<char>, env: HostEnvView, reply: ReplyView) -> StepView {
        match reply {
            ReplyView::Done => StepView::ask(
                RequestView::Probe(self.fallback_file()),
                StateView::FallbackStale { primary_name, env },
            ),
            ReplyView::Failed(e) => StepView::fail(ErrorView::Fallback(FallbackStep::CreateDir, e)),
            _ => StepView::fail(ErrorView::UnexpectedReply),
        }
    }

    pub open spec fn fallback_link(self, primary_name: Seq<char>, env: HostEnvView) -> StepView {
        StepView::ask(
            RequestView::HardLink(self.companion(), self.fallback_file()),
            StateView::FallbackLink { primary_name, env },
        )
    }

    /// An old link is deleted before the new one is made.
    pub open spec fn fallback_stale(self, primary_name: Seq<char>, env: HostEnvView, reply: ReplyView) -> StepView {
        match reply {
            ReplyView::Status(status) => if status.exists {
                StepView::ask(
                    RequestView::RemoveFile(self.fallback_file()),
                    StateView::FallbackUnlink { primary_name, env },
                )
            } else {
                self.fallback_link(primary_name, env)
            },
            _ => StepView::fail(ErrorView::UnexpectedReply),
        }
    }

    pub open spec fn fallback_unlinked(self, primary_name: Seq<char>, env: HostEnvView, reply: ReplyView) -> StepView {
        match reply {
            ReplyView::Done => self.fallback_link(primary_name, env),
            ReplyView::Failed(e) => StepView::fail(ErrorView::Fallback(FallbackStep::Unlink, e)),
            _ => StepView::fail(ErrorView::UnexpectedReply),
        }
    }

    pub open spec fn fallback_linked(self, primary_name: Seq<char>, env: HostEnvView, reply: ReplyView) -> StepView {
        match reply {
            ReplyView::Done => StepView::done(
                Ok(
                    OutcomeView::Command(
                        self.fallback_command(self.fallback_file(), primary_name, env),
                    ),
                ),
            ),
            ReplyView::Failed(e) => StepView::fail(ErrorView::Fallback(FallbackStep::HardLink, e)),
            _ => StepView::fail(ErrorView::UnexpectedReply),
        }
    }
}

impl<'a> Toolchain<'a> {
    fn bin_path(&self, file: &str) -> (path: FsPath)
        ensures
            path@ == self@.bin_path(file@),
    {
        self.path().join("bin").join(file)
    }

    pub(crate) fn command_start(&self, binary: &str, env: HostEnv) -> (step: Step)
        ensures
            step@ == self@.command_start(binary@, env@),
    {
        let file = executable_name(binary, self.cfg().platform);
        Step::ask(
            Request::Probe(self.path().clone()),
            State::CommandProbe { binary: file, env },
        )
    }

    pub(crate) fn command_probed(&self, binary: String, env: HostEnv, reply: Reply) -> (step: Step)
        ensures
            step@ == self@.command_probed(binary@, env@, reply@),
    {
        match reply {
            Reply::Status(status) => {
                if self.is_installed(status) {
                    Step::ask(
                        Request::Probe(self.bin_path(binary.as_str())),
                        State::CommandLocate { binary, env },
                    )
                } else {
                    Step::fail(Error::ToolchainNotInstalled(self.name().to_owned()))
                }
            },
            _ => Step::fail(Error::UnexpectedReply),
        }
    }

    pub(crate) fn command_located(&self, binary: String, env: HostEnv, reply: Reply) -> (step: Step)
        ensures
            step@ == self@.command_located(binary@, env@, reply@),
    {
        match reply {
            Reply::Status(status) => {
                if status.is_file {
                    let program = self.bin_path(binary.as_str());
                    Step::done(Ok(Outcome::Command(self.command(program, &env))))
                } else if recursion_depth(&env) >= self.cfg().recursion_limit {
                    Step::fail(Error::BinaryNotFound(self.name().to_owned(), binary))
                } else {
                    let program = FsPath::new(binary.as_str());
                    Step::done(Ok(Outcome::Command(self.command(program, &env))))
                }
            },
            _ => Step::fail(Error::UnexpectedReply),
        }
    }

    fn companion(&self) -> (path: FsPath)
        ensures
            path@ == self@.companion(),
    {
        let file = "leanpkg".to_owned().concat(self.cfg().platform.exe_suffix());
        self.bin_path(file.as_str())
    }

    fn fallback_dir(&self) -> (path: FsPath)
        ensures
            path@ == self@.fallback_dir(),
    {
        self.cfg().elan_dir.join("fallback")
    }

    fn fallback_file(&self) -> (path: FsPath)
        ensures
            path@ == self@.fallback_file(),
    {
        self.fallback_dir().join("leanpkg.exe")
    }

    fn fallback_command(&self, program: FsPath, primary_name: &str, env: &HostEnv) -> (cmd:
        CommandPlan)
        ensures
            cmd@ == self@.fallback_command(program@, primary_name@, env@),
    {
        let mut cmd = self.command(program, env);
        cmd.env("ELAN_TOOLCHAIN", primary_name);
        cmd
    }

    pub(crate) fn fallback_start(&self, primary_name: String, primary_path: FsPath, env: HostEnv) -> (step:
        Step)
        ensures
            step@ == self@.fallback_start(primary_name@, primary_path@, env@),
    {
        Step::ask(
            Request::Probe(self.path().clone()),
            State::FallbackProbe { primary_name, primary_path, env },
        )
    }

    pub(crate) fn fallback_probed(
        &self,
        primary_name: String,
        primary_path: FsPath,
        env: HostEnv,
        reply: Reply,
    ) -> (step: Step)
        ensures
            step@ == self@.fallback_probed(primary_name@, primary_path@, env@, reply@),
    {
        match reply {
            Reply::Status(status) => {
                if self.is_installed(status) {
                    Step::ask(
                        Request::Probe(primary_path),
                        State::FallbackPrimaryProbe { primary_name, env },
                    )
                } else {
                    Step::fail(Error::ToolchainNotInstalled(self.name().to_owned()))
                }
            },
            _ => Step::fail(Error::UnexpectedReply),
        }
    }

    pub(crate) fn fallback_primary_probed(&self, primary_name: String, env: HostEnv, reply: Reply) -> (step:
        Step)
        ensures
            step@ == self@.fallback_primary_probed(primary_name@, env@, reply@),
    {
        match reply {
            Reply::Status(status) => {
                if !self.is_installed(status) {
                    Step::fail(Error::ToolchainNotInstalled(primary_name))
                } else if self.cfg().platform.is_windows() {
                    Step::ask(
                        Request::CreateDirAll(self.fallback_dir()),
                        State::FallbackDir { primary_name, env },
                    )
                } else {
                    let cmd = self.fallback_command(self.companion(), primary_name.as_str(), &env);
                    Step::done(Ok(Outcome::Command(cmd)))
                }
            },
            _ => Step::fail(Error::UnexpectedReply),
        }
    }

    pub(crate) fn fallback_dir_made(&self, primary_name: String, env: HostEnv, reply: Reply) -> (step:
        Step)
        ensures
            step@ == self@.fallback_dir_made(primary_name@, env@, reply@),
    {
        match reply {
            Reply::Done => Step::ask(
                Request::Probe(self.fallback_file()),
                State::FallbackStale { primary_name, env },
            ),
            Reply::Failed(e) => Step::fail(Error::Fallback(FallbackStep::CreateDir, e)),
            _ => Step::fail(Error::UnexpectedReply),
        }
    }

    fn fallback_link(&self, primary_name: String, env: HostEnv) -> (step: Step)
        ensures
            step@ == self@.fallback_link(primary_name@, env@),
    {
        Step::ask(
            Request::HardLink(self.companion(), self.fallback_file()),
            State::FallbackLink { primary_name, env },
        )
    }

    pub(crate) fn fallback_stale(&self, primary_name: String, env: HostEnv, reply: Reply) -> (step:
        Step)
        ensures
            step@ == self@.fallback_stale(primary_name@, env@, reply@),
    {
        match reply {
            Reply::Status(status) => {
                if status.exists {
                    Step::ask(
                        Request::RemoveFile(self.fallback_file()),
                        State::FallbackUnlink { primary_name, env },
                    )
                } else {
                    self.fallback_link(primary_name, env)
                }
            },
            _ => Step::fail(Error::UnexpectedReply),
        }
    }

    pub(crate) fn fallback_unlinked(&self, primary_name: String, env: HostEnv, reply: Reply) -> (step:
        Step)
        ensures
            step@ == self@.fallback_unlinked(primary_name@, env@, reply@),
    {
        match reply {
            Reply::Done => self.fallback_link(primary_name, env),
            Reply::Failed(e) => Step::fail(Error::Fallback(FallbackStep::Unlink, e)),
            _ => Step::fail(Error::UnexpectedReply),
        }
    }

    pub(crate) fn fallback_linked(&self, primary_name: String, env: HostEnv, reply: Reply) -> (step:
        Step)
        ensures
            step@ == self@.fallback_linked(primary_name@, env@, reply@),
    {
        match reply {
            Reply::Done => {
                let cmd = self.fallback_command(self.fallback_file(), primary_name.as_str(), &env);
                Step::done(Ok(Outcome::Command(cmd)))
            },
            Reply::Failed(e) => Step::fail(Error::Fallback(FallbackStep::HardLink, e)),
            _ => Step::fail(Error::UnexpectedReply),
        }
    }
}

} // verus!
