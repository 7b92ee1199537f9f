//! Bootstrapping the compatibility-layer prefix and installing the
//! managed runtime, the redistributables and the library-routing
//! overrides into it. Each installer invocation is an external command
//! plan; the two waits are bounded polling loops with different policies:
//! the prefix bootstrap times out hard, the redistributable detection
//! logs and proceeds, deferring to the validator.

use vstd::prelude::*;
use vstd::string::*;
use crate::command::CommandPlan;
use crate::command::env_is;
use crate::config::KeyValue;
use crate::error::SetupError;
use crate::poll::PollOutcome;
use crate::poll::PollSchedule;
use crate::poll::first_success;
use crate::poll::run_poll;
use crate::strutil::join_path;

verus! {

/// The pacing of the wait for the prefix's marker files: every half
/// second, one hundred twenty times, with a warning at the sixtieth
/// attempt.
pub fn marker_poll_schedule() -> (s: PollSchedule)
    ensures
        s.interval_ms == 500,
        s.max_attempts == 120,
        s.warn_at == 60,
{
    PollSchedule { interval_ms: 500, max_attempts: 120, warn_at: 60 }
}

/// The pacing of the redistributable-detection wait: every second, sixty
/// times, with a warning at the thirtieth attempt.
pub fn vc_poll_schedule() -> (s: PollSchedule)
    ensures
        s.interval_ms == 1000,
        s.max_attempts == 60,
        s.warn_at == 30,
{
    PollSchedule { interval_ms: 1000, max_attempts: 60, warn_at: 30 }
}

/// The bootstrap command for a fresh prefix: the bootstrap executable,
/// run with the 64-bit architecture selected, the prefix path bound, and
/// the problematic menu-builder helper suppressed.
pub fn wineboot_command(wineboot_path: &str, wine_prefix: &str) -> (p: CommandPlan)
    ensures
        p.program@ == wineboot_path@,
        p.args@.len() == 0,
        p.envs@.len() == 3,
        env_is(p.envs@[0], "WINEARCH"@, "win64"@),
        env_is(p.envs@[1], "WINEPREFIX"@, wine_prefix@),
        env_is(p.envs@[2], "WINEDLLOVERRIDES"@, "winemenubuilder="@),
        p.cwd is None,
{
    let mut envs: Vec<KeyValue> = Vec::new();
    envs.push(
        KeyValue { key: String::from_str("WINEARCH"), value: String::from_str("win64") },
    );
    envs.push(
        KeyValue { key: String::from_str("WINEPREFIX"), value: String::from_str(wine_prefix) },
    );
    envs.push(
        KeyValue {
            key: String::from_str("WINEDLLOVERRIDES"),
            value: String::from_str("winemenubuilder="),
        },
    );
    CommandPlan { program: String::from_str(wineboot_path), args: Vec::new(), envs, cwd: None }
}

/// The outcome of one prefix bootstrap, given whether the bootstrap
/// command itself succeeded and what each marker poll observed (whether
/// all three marker files existed simultaneously).
///
/// Success returns the number of attempts spent. A run whose budget of
/// one hundred twenty observations never finds the markers fails with a
/// timeout, as does a failed bootstrap command.
///
/// Re-running the bootstrap against an already-initialized prefix is a
/// no-op with respect to the marker files: the bootstrap issues only the
/// single external command of [`wineboot_command`], never a filesystem
/// action of its own, and with the markers already present the first
/// observation succeeds (see [`lemma_initialization_idempotent`]).
pub fn initialize_wine_environment(command_ok: bool, observations: &Vec<bool>) -> (r: Result<
    usize,
    SetupError,
>)
    ensures
        !command_ok ==> (r matches Err(e) && e is CommandFailed),
        command_ok ==> match first_success(observations@, 120) {
            Some(i) => r == Ok::<usize, SetupError>((i + 1) as usize),
            None => (r matches Err(e) && e is Timeout),
        },
{
    if !command_ok {
        return Err(SetupError::CommandFailed(String::from_str("wineboot failed")));
    }
    let sched = marker_poll_schedule();
    match run_poll(sched.max_attempts, observations) {
        PollOutcome::Satisfied(attempts) => Ok(attempts),
        PollOutcome::TimedOut(_) => Err(
            SetupError::Timeout(
                String::from_str("Timed out. wine initialization failed, Try rerunning the setup"),
            ),
        ),
    }
}

/// With the three marker files already present at the first look, the
/// bootstrap wait succeeds immediately: one attempt, no further polling,
/// and no action that could touch the markers.
pub proof fn lemma_initialization_idempotent(observations: Seq<bool>)
    requires
        observations.len() > 0,
        observations[0],
    ensures
        first_success(observations, 120) == Some(0int),
{
}

/// With the marker files never appearing, the bootstrap wait spends its
/// whole budget of one hundred twenty attempts and finds nothing, so the
/// bootstrap fails with a timeout.
pub proof fn lemma_initialization_timeout(observations: Seq<bool>)
    requires
        forall|j: int| 0 <= j < observations.len() ==> !observations[j],
    ensures
        first_success(observations, 120) is None,
{
    crate::poll::lemma_first_success_none(observations, 120);
}

/// The non-interactive managed-runtime installer command: the layer
/// executable running the installer tool on the runtime package, against
/// the prefix.
pub fn install_mono_runtime(wine_path: &str, wine_prefix: &str, mono_msi_path: &str) -> (p:
    CommandPlan)
    ensures
        p.program@ == wine_path@,
        p.args@.len() == 3,
        p.args@[0]@ == "msiexec"@,
        p.args@[1]@ == "/i"@,
        p.args@[2]@ == mono_msi_path@,
        p.envs@.len() == 1,
        env_is(p.envs@[0], "WINEPREFIX"@, wine_prefix@),
        p.cwd is None,
{
    let mut args: Vec<String> = Vec::new();
    args.push(String::from_str("msiexec"));
    args.push(String::from_str("/i"));
    args.push(String::from_str(mono_msi_path));
    let mut envs: Vec<KeyValue> = Vec::new();
    envs.push(
        KeyValue { key: String::from_str("WINEPREFIX"), value: String::from_str(wine_prefix) },
    );
    CommandPlan { program: String::from_str(wine_path), args, envs, cwd: None }
}

/// One non-interactive redistributable-installer command against the
/// prefix.
pub fn vc_redist_command(wine_path: &str, wine_prefix: &str, redist_path: &str) -> (p: CommandPlan)
    ensures
        p.program@ == wine_path@,
        p.args@.len() == 3,
        p.args@[0]@ == redist_path@,
        p.args@[1]@ == "/quiet"@,
        p.args@[2]@ == "/norestart"@,
        p.envs@.len() == 1,
        env_is(p.envs@[0], "WINEPREFIX"@, wine_prefix@),
        p.cwd is None,
{
    let mut args: Vec<String> = Vec::new();
    args.push(String::from_str(redist_path));
    args.push(String::from_str("/quiet"));
    args.push(String::from_str("/norestart"));
    let mut envs: Vec<KeyValue> = Vec::new();
    envs.push(
        KeyValue { key: String::from_str("WINEPREFIX"), value: String::from_str(wine_prefix) },
    );
    CommandPlan { program: String::from_str(wine_path), args, envs, cwd: None }
}

/// The override-import command: the layer executable running the registry
/// editor silently on the pre-built override file, against the prefix.
pub fn set_regedit_overrides(wine_path: &str, wine_prefix: &str, overrides_reg_path: &str) -> (p:
    CommandPlan)
    ensures
        p.program@ == wine_path@,
        p.args@.len() == 3,
        p.args@[0]@ == "regedit"@,
        p.args@[1]@ == "/s"@,
        p.args@[2]@ == overrides_reg_path@,
        p.envs@.len() == 1,
        env_is(p.envs@[0], "WINEPREFIX"@, wine_prefix@),
        p.cwd is None,
{
    let mut args: Vec<String> = Vec::new();
    args.push(String::from_str("regedit"));
    args.push(String::from_str("/s"));
    args.push(String::from_str(overrides_reg_path));
    let mut envs: Vec<KeyValue> = Vec::new();
    envs.push(
        KeyValue { key: String::from_str("WINEPREFIX"), value: String::from_str(wine_prefix) },
    );
    CommandPlan { program: String::from_str(wine_path), args, envs, cwd: None }
}

/// The whole runtime-installation sequence, in execution order.
#[derive(Debug)]
pub struct RuntimesPlan {
    /// Install the managed runtime.
    pub mono_install: CommandPlan,
    /// Install the 32-bit redistributable.
    pub x86_install: CommandPlan,
    /// Install the 64-bit redistributable.
    pub x64_install: CommandPlan,
    /// Then poll the redistributable check at this pace. The detection
    /// timeout is soft: the shell logs and proceeds, leaving the
    /// authoritative verdict to the later validation step.
    pub detection: PollSchedule,
    /// Finally import the library-routing overrides.
    pub overrides_import: CommandPlan,
}

/// The ordered runtime-installation plan for a prefix: managed runtime,
/// both redistributables from the working directory, a soft-timeout
/// detection poll, then the override import.
pub fn install_runtimes(mono_msi_path: &str, wine_path: &str, wine_prefix: &str, tools_dir: &str) -> (r:
    RuntimesPlan)
    ensures
        r.mono_install.program@ == wine_path@,
        r.mono_install.args@.len() == 3,
        r.mono_install.args@[0]@ == "msiexec"@,
        r.mono_install.args@[1]@ == "/i"@,
        r.mono_install.args@[2]@ == mono_msi_path@,
        r.mono_install.envs@.len() == 1,
        env_is(r.mono_install.envs@[0], "WINEPREFIX"@, wine_prefix@),
        r.x86_install.program@ == wine_path@,
        r.x86_install.args@.len() == 3,
        r.x86_install.args@[0]@ == tools_dir@ + "/"@ + "vc_redist.x86.exe"@,
        r.x86_install.args@[1]@ == "/quiet"@,
        r.x86_install.args@[2]@ == "/norestart"@,
        r.x86_install.envs@.len() == 1,
        env_is(r.x86_install.envs@[0], "WINEPREFIX"@, wine_prefix@),
        r.x64_install.program@ == wine_path@,
        r.x64_install.args@.len() == 3,
        r.x64_install.args@[0]@ == tools_dir@ + "/"@ + "vc_redist.x64.exe"@,
        r.x64_install.args@[1]@ == "/quiet"@,
        r.x64_install.args@[2]@ == "/norestart"@,
        r.x64_install.envs@.len() == 1,
        env_is(r.x64_install.envs@[0], "WINEPREFIX"@, wine_prefix@),
        r.detection.interval_ms == 1000,
        r.detection.max_attempts == 60,
        r.detection.warn_at == 30,
        r.overrides_import.program@ == wine_path@,
        r.overrides_import.args@.len() == 3,
        r.overrides_import.args@[0]@ == "regedit"@,
        r.overrides_import.args@[1]@ == "/s"@,
        r.overrides_import.args@[2]@ == tools_dir@ + "/"@ + "overrides.reg"@,
        r.overrides_import.envs@.len() == 1,
        env_is(r.overrides_import.envs@[0], "WINEPREFIX"@, wine_prefix@),
{
    let x86_path = join_path(tools_dir, "vc_redist.x86.exe");
    let x64_path = join_path(tools_dir, "vc_redist.x64.exe");
    let overrides_path = join_path(tools_dir, "overrides.reg");
    RuntimesPlan {
        mono_install: install_mono_runtime(wine_path, wine_prefix, mono_msi_path),
        x86_install: vc_redist_command(wine_path, wine_prefix, x86_path.as_str()),
        x64_install: vc_redist_command(wine_path, wine_prefix, x64_path.as_str()),
        detection: vc_poll_schedule(),
        overrides_import: set_regedit_overrides(wine_path, wine_prefix, overrides_path.as_str()),
    }
}

} // verus!
