//! Decisions of the managed Ollama server's lifecycle: its address, stale
//! process cleanup, health polling and shutdown.

use vstd::prelude::*;
use crate::llm::LlmError;
use crate::text::{decimal, decimal_text, parse_u32, parsed_u32, trim, trim_chars};
use super::download::{is_unix, TargetOs};

verus! {

/// The port the managed server listens on.
pub const MANAGED_PORT: u16 = 11435;

/// How long to wait for the managed server to become healthy.
pub const HEALTH_TIMEOUT_MS: u64 = 30_000;

/// Pause between health probes.
pub const HEALTH_POLL_INTERVAL_MS: u64 = 100;

/// How long to wait for the server to exit after asking it to.
pub const SHUTDOWN_TIMEOUT_MS: u64 = 5_000;

/// Pause between checks whether the server has exited.
pub const SHUTDOWN_POLL_MS: u64 = 200;

/// Grace period a stale server gets between the polite and the forced kill.
pub const STALE_GRACE_MS: u64 = 2_000;

/// The port of the managed server.
pub fn managed_port() -> (r: u16)
    ensures
        r == MANAGED_PORT,
{
    MANAGED_PORT
}

/// Entries of the library's data directory.
#[derive(Debug, Clone, Copy, PartialEq, Eq, Structural)]
pub enum DataEntry {
    /// The directory holding the server binary.
    BinDir,
    /// The directory holding downloaded models.
    ModelsDir,
    /// The lockfile holding the managed server's process id.
    PidFile,
}

/// The name of an entry of the data directory.
pub open spec fn data_entry(entry: DataEntry) -> Seq<char> {
    match entry {
        DataEntry::BinDir => "bin"@,
        DataEntry::ModelsDir => "models"@,
        DataEntry::PidFile => "ollama.pid"@,
    }
}

/// The name of an entry of the data directory.
pub fn data_entry_name(entry: DataEntry) -> (r: &'static str)
    ensures
        r@ == data_entry(entry),
{
    match entry {
        DataEntry::BinDir => "bin",
        DataEntry::ModelsDir => "models",
        DataEntry::PidFile => "ollama.pid",
    }
}

/// The name of the server binary on a system.
pub open spec fn binary_file(os: TargetOs) -> Seq<char> {
    if os is Windows {
        "ollama.exe"@
    } else {
        "ollama"@
    }
}

/// The name of the server binary on a system.
pub fn binary_file_name(os: TargetOs) -> (r: &'static str)
    ensures
        r@ == binary_file(os),
{
    match os {
        TargetOs::Windows => "ollama.exe",
        _ => "ollama",
    }
}

/// The address the managed server is told to listen on.
pub fn managed_listen_address() -> (r: String)
    ensures
        r@ == "127.0.0.1:"@ + decimal_text(MANAGED_PORT as nat),
{
    let mut a = "127.0.0.1:".to_owned();
    let port = decimal(MANAGED_PORT as u64);
    a.append(port.as_str());
    a
}

/// The contents written to the PID lockfile.
pub fn pid_file_contents(pid: u32) -> (r: String)
    ensures
        r@ == decimal_text(pid as nat),
{
    decimal(pid as u64)
}

/// The process a stale PID lockfile names: its contents, trimmed, parsed as
/// a `u32`.
pub open spec fn stale_pid_of(contents: Seq<char>) -> Option<u32> {
    parsed_u32(trim_chars(contents))
}

/// The process a stale PID lockfile names, if its contents are a number.
pub fn stale_pid(contents: &str) -> (r: Option<u32>)
    ensures
        r == stale_pid_of(contents@),
{
    let t = trim(contents);
    parse_u32(&t)
}

/// Whether a stale process is looked for and killed on this system (only on
/// Unix-like ones).
pub fn probes_stale_process(os: TargetOs) -> (r: bool)
    ensures
        r == is_unix(os),
{
    match os {
        TargetOs::MacOs | TargetOs::Linux | TargetOs::OtherUnix => true,
        _ => false,
    }
}

/// One step of killing a stale server.
#[derive(Debug, Clone, Copy, PartialEq, Eq, Structural)]
pub enum KillStep {
    /// Ask the process to terminate.
    Terminate(u32),
    /// Wait this many milliseconds.
    Sleep(u64),
    /// Kill the process outright.
    ForceKill(u32),
}

/// The steps that clean up a stale server: nothing when it is gone, else a
/// polite request, a grace period, and a forced kill.
pub open spec fn stale_kill_steps(pid: u32, alive: bool) -> Seq<KillStep> {
    if alive {
        seq![KillStep::Terminate(pid), KillStep::Sleep(STALE_GRACE_MS), KillStep::ForceKill(pid)]
    } else {
        Seq::empty()
    }
}

/// The steps that clean up a stale server, given whether it is still alive.
pub fn stale_kill_plan(pid: u32, alive: bool) -> (r: Vec<KillStep>)
    ensures
        r@ == stale_kill_steps(pid, alive),
{
    let mut v: Vec<KillStep> = Vec::new();
    if alive {
        v.push(KillStep::Terminate(pid));
        v.push(KillStep::Sleep(STALE_GRACE_MS));
        v.push(KillStep::ForceKill(pid));
    }
    assert(v@ =~= stale_kill_steps(pid, alive));
    v
}

/// What to do after a health probe during startup.
#[derive(Debug, Clone, Copy, PartialEq, Eq, Structural)]
pub enum HealthWaitStep {
    /// The server is healthy.
    Ready,
    /// Probe again when the time left allows, after this many milliseconds.
    Retry(u64),
}

/// Whether startup may probe the server again after `elapsed_ms` milliseconds.
pub fn health_wait_continues(elapsed_ms: u64) -> (r: bool)
    ensures
        r == (elapsed_ms < HEALTH_TIMEOUT_MS),
{
    elapsed_ms < HEALTH_TIMEOUT_MS
}

/// What to do after a health probe.
pub fn health_wait_after_probe(healthy: bool) -> (r: HealthWaitStep)
    ensures
        healthy ==> r == HealthWaitStep::Ready,
        !healthy ==> r == HealthWaitStep::Retry(HEALTH_POLL_INTERVAL_MS),
{
    if healthy {
        HealthWaitStep::Ready
    } else {
        HealthWaitStep::Retry(HEALTH_POLL_INTERVAL_MS)
    }
}

/// The error when the server did not become healthy in time.
pub fn health_timeout_error() -> (r: LlmError)
    ensures
        r matches LlmError::ProcessError(m) && m@ == "Ollama failed to start within 30 seconds"@,
{
    LlmError::ProcessError("Ollama failed to start within 30 seconds".to_owned())
}

/// Whether shutdown first asks the server to exit and waits for it: on
/// Unix-like systems, when the process id is known.
pub fn graceful_shutdown(os: TargetOs, pid: Option<u32>) -> (r: bool)
    ensures
        r == (is_unix(os) && pid is Some),
{
    probes_stale_process(os) && pid.is_some()
}

/// What a check on a child process reported.
#[derive(Debug, Clone, Copy, PartialEq, Eq, Structural)]
pub enum ExitCheck {
    Exited,
    Running,
    Failed,
}

/// Whether shutdown still waits for the server to exit after `elapsed_ms`.
pub fn shutdown_wait_continues(elapsed_ms: u64) -> (r: bool)
    ensures
        r == (elapsed_ms < SHUTDOWN_TIMEOUT_MS),
{
    elapsed_ms < SHUTDOWN_TIMEOUT_MS
}

/// After a check on the exiting server: how long to sleep before checking
/// again, or `None` to stop waiting (it exited, or the check failed).
pub fn shutdown_after_check(check: ExitCheck) -> (r: Option<u64>)
    ensures
        r == (if check is Running { Some(SHUTDOWN_POLL_MS) } else { None::<u64> }),
{
    match check {
        ExitCheck::Running => Some(SHUTDOWN_POLL_MS),
        _ => None,
    }
}

/// The steps of starting the server that can fail, each with its message.
#[derive(Debug, Clone, Copy, PartialEq, Eq, Structural)]
pub enum ProcessFailure {
    CreateModelsDir,
    Spawn,
}

/// The message prefix of a failed start step.
pub open spec fn process_failure_prefix(step: ProcessFailure) -> Seq<char> {
    match step {
        ProcessFailure::CreateModelsDir => "Failed to create models dir: "@,
        ProcessFailure::Spawn => "Failed to spawn Ollama: "@,
    }
}

/// The error for a failed start step, with the underlying cause's text.
pub fn process_error(step: ProcessFailure, detail: &str) -> (r: LlmError)
    ensures
        r matches LlmError::ProcessError(m) && m@ == process_failure_prefix(step) + detail@,
{
    let mut m = match step {
        ProcessFailure::CreateModelsDir => "Failed to create models dir: ".to_owned(),
        ProcessFailure::Spawn => "Failed to spawn Ollama: ".to_owned(),
    };
    m.append(detail);
    LlmError::ProcessError(m)
}

/// A server that is alive is given a grace period and then killed; one that
/// is gone is left alone.
pub proof fn lemma_stale_kill_ends_forced(pid: u32, alive: bool)
    ensures
        alive ==> stale_kill_steps(pid, alive).last() == KillStep::ForceKill(pid),
        alive ==> stale_kill_steps(pid, alive)[0] == KillStep::Terminate(pid),
        !alive ==> stale_kill_steps(pid, alive).len() == 0,
{
}

} // verus!
