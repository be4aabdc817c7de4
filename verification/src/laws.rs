//! What holds of every toolchain, whatever the host answers.

use crate::command::{recursion_depth_spec, recursion_var, EnvChangeView, HostEnvView};
use crate::errors::ErrorView;
use crate::install::{InstallMethodView, UpdateStatus};
use crate::notifications::NotificationView;
use crate::paths::PathStatus;
use crate::requests::{ReplyView, RequestView};
use crate::steps::{AfterRemovalView, NextView, OutcomeView, StateView, StepView, ThenView};
use crate::text::{decimal, lemma_parse_decimal};
use crate::toolchain::ToolchainView;
use vstd::prelude::*;

verus! {

/// `change` is among `changes`, and no later change is made to its variable:
/// it is what the process sees.
pub open spec fn settles(changes: Seq<EnvChangeView>, change: EnvChangeView) -> bool {
    exists|i: int|
        0 <= i < changes.len() && changes[i] == change && forall|j: int|
            i < j < changes.len() ==> (#[trigger] changes[j]).var() != change.var()
}

/// `change` is among `changes`, and no other change is made to its variable.
pub open spec fn changes_once(changes: Seq<EnvChangeView>, change: EnvChangeView) -> bool {
    exists|i: int|
        0 <= i < changes.len() && changes[i] == change && forall|j: int|
            0 <= j < changes.len() && j != i ==> (#[trigger] changes[j]).var() != change.var()
}

/// Installing unless installed leaves an existing installation alone: the
/// installer is not asked for, and the result is `Unchanged`.
pub proof fn lemma_existing_install_is_used(
    tc: ToolchainView,
    method: InstallMethodView,
    status: PathStatus,
)
    requires
        tc.is_installed(status),
    ensures
        tc.if_absent_start(method).next == NextView::Ask(
            RequestView::Probe(tc.path),
            StateView::IfAbsentProbe { method },
        ),
        tc.resume(StateView::IfAbsentProbe { method }, ReplyView::Status(status)) == (StepView {
            notices: seq![NotificationView::UsingExistingToolchain(tc.name)],
            next: NextView::Done(Ok(OutcomeView::Status(UpdateStatus::Unchanged))),
        }),
{
    let step = tc.resume(StateView::IfAbsentProbe { method }, ReplyView::Status(status));
    assert(step.notices =~= seq![NotificationView::UsingExistingToolchain(tc.name)]);
}

/// An installation that succeeds is classified by what was there before and
/// by whether the installer changed anything: `Installed` where nothing was
/// there and something changed, `Updated` where an installation was there
/// and changed, `Unchanged` where nothing changed.
pub proof fn lemma_install_outcome(
    tc: ToolchainView,
    method: InstallMethodView,
    status: PathStatus,
    changed: bool,
)
    ensures
        tc.install_start(method, ThenView::Return).next == NextView::Ask(
            RequestView::Probe(tc.path),
            StateView::InstallProbe { method, then: ThenView::Return },
        ),
        tc.resume(
            StateView::InstallProbe { method, then: ThenView::Return },
            ReplyView::Status(status),
        ).next == NextView::Ask(
            RequestView::Install(method, tc.path),
            StateView::InstallRun { existed: tc.is_installed(status), then: ThenView::Return },
        ),
        tc.resume(
            StateView::InstallRun { existed: tc.is_installed(status), then: ThenView::Return },
            ReplyView::Flag(changed),
        ).next == NextView::Done(
            Ok(
                OutcomeView::Status(
                    if !changed {
                        UpdateStatus::Unchanged
                    } else if tc.is_installed(status) {
                        UpdateStatus::Updated
                    } else {
                        UpdateStatus::Installed
                    },
                ),
            ),
        ),
{
}

/// The operations for custom toolchains refuse every other toolchain before
/// anything is asked of the host.
pub proof fn lemma_custom_operations_refuse_others(
    tc: ToolchainView,
    installers: Seq<Seq<char>>,
    src: Seq<Seq<char>>,
    link: bool,
)
    requires
        !tc.is_custom(),
    ensures
        tc.installers_start(installers) == StepView::fail(
            ErrorView::InvalidCustomOperation(tc.name),
        ),
        tc.dir_start(src, link) == StepView::fail(ErrorView::InvalidCustomOperation(tc.name)),
{
}

/// An installation from the distribution refuses a custom toolchain with
/// the parser's refusal of its name, and asks the host at most to record
/// the attempt.
pub proof fn lemma_dist_refuses_custom(tc: ToolchainView, force: bool, log: bool, if_absent: bool)
    requires
        tc.is_custom(),
    ensures
        !log ==> tc.dist_inner(force, log, if_absent) == StepView::fail(
            ErrorView::Host(tc.parsed->Err_0),
        ),
        log ==> tc.dist_inner(force, log, if_absent).request() == Some(
            RequestView::LogTelemetry(tc.telemetry, tc.update_event()),
        ),
{
}

/// Removing a toolchain that is not installed succeeds, and asks nothing
/// more of the host.
pub proof fn lemma_remove_of_absent(tc: ToolchainView, status: PathStatus)
    requires
        !status.is_directory,
        !status.is_symlink,
    ensures
        tc.remove_start(AfterRemovalView::Return).next == NextView::Ask(
            RequestView::Probe(tc.path),
            StateView::RemoveProbe { after: AfterRemovalView::Return },
        ),
        tc.resume(
            StateView::RemoveProbe { after: AfterRemovalView::Return },
            ReplyView::Status(status),
        ) == (StepView {
            notices: seq![NotificationView::ToolchainNotInstalled(tc.name)],
            next: NextView::Done(Ok(OutcomeView::Unit)),
        }),
{
    let step = tc.resume(
        StateView::RemoveProbe { after: AfterRemovalView::Return },
        ReplyView::Status(status),
    );
    assert(step.notices =~= seq![NotificationView::ToolchainNotInstalled(tc.name)]);
}

/// A failure of the uninstaller is the result of the removal, whatever was
/// deleted before and whatever is left of the directory.
pub proof fn lemma_remove_failure_is_handed_on(
    tc: ToolchainView,
    then: AfterRemovalView,
    failure: Seq<char>,
    status: PathStatus,
)
    ensures
        tc.resume(StateView::RemoveRun { after: then }, ReplyView::Failed(failure)).next
            == NextView::Ask(
            RequestView::Probe(tc.path),
            StateView::RemoveConfirm { failure: Some(failure), after: then },
        ),
        tc.resume(
            StateView::RemoveConfirm { failure: Some(failure), after: then },
            ReplyView::Status(status),
        ).next == NextView::Done(Err(ErrorView::Host(failure))),
{
}

/// Installing from installers starts by looking for an installation under
/// the toolchain's name, and removes one that is there before anything
/// else.
pub proof fn lemma_installers_remove_first(
    tc: ToolchainView,
    installers: Seq<Seq<char>>,
    status: PathStatus,
)
    requires
        tc.is_custom(),
        status.is_directory || status.is_symlink,
    ensures
        tc.installers_start(installers).next == NextView::Ask(
            RequestView::Probe(tc.path),
            StateView::RemoveProbe { after: AfterRemovalView::Install(installers) },
        ),
        tc.resume(
            StateView::RemoveProbe { after: AfterRemovalView::Install(installers) },
            ReplyView::Status(status),
        ).request() == Some(RequestView::Uninstall(tc.path)),
{
}

/// Recording an attempt never changes its result, whether the record could
/// be written or not.
pub proof fn lemma_telemetry_keeps_result(
    tc: ToolchainView,
    result: Result<UpdateStatus, ErrorView>,
    failure: Seq<char>,
)
    ensures
        tc.resume(StateView::DistLog { result }, ReplyView::Done) == StepView::status(result),
        tc.resume(StateView::DistLog { result }, ReplyView::Failed(failure)).next
            == StepView::status(result).next,
        tc.resume(StateView::DistLog { result }, ReplyView::Failed(failure)).notices
            == seq![NotificationView::TelemetryCleanupError(failure)],
{
    assert(tc.resume(StateView::DistLog { result }, ReplyView::Failed(failure)).notices
        =~= seq![NotificationView::TelemetryCleanupError(failure)]);
}

/// A binary that the toolchain holds is run from the toolchain's directory,
/// whatever the depth of re-entrant invocations is.
pub proof fn lemma_present_binary_is_run(
    tc: ToolchainView,
    binary: Seq<char>,
    env: HostEnvView,
    status: PathStatus,
)
    requires
        status.is_file,
    ensures
        tc.resume(StateView::CommandLocate { binary, env }, ReplyView::Status(status))
            == StepView::done(Ok(OutcomeView::Command(tc.command(tc.bin_path(binary), env)))),
{
}

/// At the limit of re-entrant invocations, a binary that the toolchain lacks
/// is reported as not found, and no command is created.
pub proof fn lemma_recursion_guard(
    tc: ToolchainView,
    binary: Seq<char>,
    env: HostEnvView,
    status: PathStatus,
)
    requires
        !status.is_file,
        recursion_depth_spec(env.recursion_count) >= tc.cfg.recursion_limit,
    ensures
        tc.resume(StateView::CommandLocate { binary, env }, ReplyView::Status(status))
            == StepView::fail(ErrorView::BinaryNotFound(tc.name, binary)),
{
}

/// Below the limit, a binary that the toolchain lacks is left to the search
/// path.
pub proof fn lemma_absent_binary_is_searched(
    tc: ToolchainView,
    binary: Seq<char>,
    env: HostEnvView,
    status: PathStatus,
)
    requires
        !status.is_file,
        recursion_depth_spec(env.recursion_count) < tc.cfg.recursion_limit,
    ensures
        tc.resume(StateView::CommandLocate { binary, env }, ReplyView::Status(status))
            == StepView::done(Ok(OutcomeView::Command(tc.command(seq![binary], env)))),
{
}

proof fn lemma_variables_differ()
    ensures
        "ELAN_HOME"@.len() == 9,
        "ELAN_TOOLCHAIN"@.len() == 14,
        "LEAN_RECURSION_COUNT"@.len() == 20,
        "PATH"@.len() == 4,
        "LD_LIBRARY_PATH"@.len() == 15,
        "DYLD_LIBRARY_PATH"@.len() == 17,
{
    reveal_strlit("ELAN_HOME");
    reveal_strlit("ELAN_TOOLCHAIN");
    reveal_strlit("LEAN_RECURSION_COUNT");
    reveal_strlit("PATH");
    reveal_strlit("LD_LIBRARY_PATH");
    reveal_strlit("DYLD_LIBRARY_PATH");
}

/// The environment of a command counts one invocation more than the host
/// saw, and changes the counter once.
pub proof fn lemma_counter_is_incremented_once(tc: ToolchainView, env: HostEnvView)
    ensures
        changes_once(
            tc.env_changes(env),
            EnvChangeView::SetText(
                recursion_var(),
                decimal(recursion_depth_spec(env.recursion_count) as nat + 1),
            ),
        ),
{
    lemma_variables_differ();
    let changes = tc.env_changes(env);
    let change = EnvChangeView::SetText(
        recursion_var(),
        decimal(recursion_depth_spec(env.recursion_count) as nat + 1),
    );
    let at: int = if env.elan_home is Some {
        3
    } else {
        2
    };
    assert(changes[at] == change);
    assert forall|j: int| 0 <= j < changes.len() && j != at implies (#[trigger] changes[j]).var()
        != change.var() by {}
}

/// A process spawned by a command reads back the depth that the command
/// wrote, as long as the depth fits the counter.
pub proof fn lemma_counter_is_read_back(env: HostEnvView)
    requires
        recursion_depth_spec(env.recursion_count) < u32::MAX,
    ensures
        recursion_depth_spec(
            Some(decimal(recursion_depth_spec(env.recursion_count) as nat + 1)),
        ) == recursion_depth_spec(env.recursion_count) + 1,
{
    let next = (recursion_depth_spec(env.recursion_count) + 1) as u32;
    lemma_parse_decimal(next);
}

/// A command tells the spawned process the toolchain's name and the tool's
/// home directory, whatever the host's own idea of that directory is.
pub proof fn lemma_command_identifies_toolchain(tc: ToolchainView, env: HostEnvView)
    ensures
        settles(tc.env_changes(env), EnvChangeView::SetText("ELAN_TOOLCHAIN"@, tc.name)),
        settles(tc.env_changes(env), EnvChangeView::SetPath("ELAN_HOME"@, tc.cfg.elan_dir)),
{
    lemma_variables_differ();
    let changes = tc.env_changes(env);
    let base: int = if env.elan_home is Some {
        3
    } else {
        2
    };
    let name = EnvChangeView::SetText("ELAN_TOOLCHAIN"@, tc.name);
    let home = EnvChangeView::SetPath("ELAN_HOME"@, tc.cfg.elan_dir);
    assert(changes[base + 1] == name);
    assert(changes[base + 2] == home);
    assert forall|j: int| base + 1 < j < changes.len() implies (#[trigger] changes[j]).var()
        != name.var() by {}
    assert forall|j: int| base + 2 < j < changes.len() implies (#[trigger] changes[j]).var()
        != home.var() by {}
}

/// A fallback command tells the spawned process the name of the primary
/// toolchain, not that of the toolchain that holds the companion tool.
pub proof fn lemma_fallback_names_primary(
    tc: ToolchainView,
    program: Seq<Seq<char>>,
    primary_name: Seq<char>,
    env: HostEnvView,
)
    ensures
        settles(
            tc.fallback_command(program, primary_name, env).env,
            EnvChangeView::SetText("ELAN_TOOLCHAIN"@, primary_name),
        ),
{
    let changes = tc.fallback_command(program, primary_name, env).env;
    let change = EnvChangeView::SetText("ELAN_TOOLCHAIN"@, primary_name);
    assert(changes[changes.len() - 1] == change);
}

} // verus!
