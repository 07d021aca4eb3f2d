//! The Ollama backend.

pub mod api;
pub mod download;
pub mod process;

use vstd::prelude::*;
use crate::text::{decimal, decimal_text};

verus! {

/// The address of an Ollama server the user already runs.
pub open spec fn external_host() -> Seq<char> {
    "http://127.0.0.1:11434"@
}

/// The address of an Ollama server the user already runs.
pub fn external_host_address() -> (r: &'static str)
    ensures
        r@ == external_host(),
{
    "http://127.0.0.1:11434"
}

/// The address of a server started by the library, on `port`.
pub open spec fn managed_host(port: u16) -> Seq<char> {
    "http://127.0.0.1:"@ + decimal_text(port as nat)
}

/// How setup proceeds.
#[derive(Debug, Clone, Copy, PartialEq, Eq, Structural)]
pub enum SetupPlan {
    /// A server is already running on the default port: use it as is.
    UseExternal,
    /// Download the server binary, clean up stale processes, then manage it.
    DownloadThenManage,
    /// Clean up stale processes, then manage the installed binary.
    Manage,
}

/// How setup proceeds, given whether a server answers on the default port and
/// whether the binary is installed.
pub fn setup_plan(external_healthy: bool, binary_exists: bool) -> (r: SetupPlan)
    ensures
        external_healthy ==> r == SetupPlan::UseExternal,
        !external_healthy && !binary_exists ==> r == SetupPlan::DownloadThenManage,
        !external_healthy && binary_exists ==> r == SetupPlan::Manage,
{
    if external_healthy {
        SetupPlan::UseExternal
    } else if !binary_exists {
        SetupPlan::DownloadThenManage
    } else {
        SetupPlan::Manage
    }
}

/// What a health check reports.
#[derive(Debug, Clone, Copy, PartialEq, Eq, Structural)]
pub enum HealthStatus {
    Ready,
    Stopped,
    NotInstalled,
}

/// The status a health check reports: ready when the server answers, else
/// stopped or not installed depending on the binary.
pub fn health_status(reachable: bool, binary_exists: bool) -> (r: HealthStatus)
    ensures
        reachable ==> r == HealthStatus::Ready,
        !reachable && binary_exists ==> r == HealthStatus::Stopped,
        !reachable && !binary_exists ==> r == HealthStatus::NotInstalled,
{
    if reachable {
        HealthStatus::Ready
    } else if binary_exists {
        HealthStatus::Stopped
    } else {
        HealthStatus::NotInstalled
    }
}

/// The backend's display name.
pub fn backend_name() -> (r: &'static str)
    ensures
        r@ == "Ollama"@,
{
    "Ollama"
}

/// Which server the backend talks to, and whether the library manages it.
pub struct OllamaEndpoint {
    host: String,
    managed: bool,
}

impl OllamaEndpoint {
    /// The server address.
    pub closed spec fn host_text(&self) -> Seq<char> {
        self.host@
    }

    /// Whether the server is one the library started.
    pub closed spec fn is_managed(&self) -> bool {
        self.managed
    }

    /// An endpoint not yet set up: no address, not managed.
    pub fn new() -> (e: Self)
        ensures
            e.host_text() == Seq::<char>::empty(),
            !e.is_managed(),
    {
        OllamaEndpoint { host: String::new(), managed: false }
    }

    /// Points at the server the user already runs.
    pub fn use_external(&mut self)
        ensures
            final(self).host_text() == external_host(),
            !final(self).is_managed(),
    {
        self.host = external_host_address().to_owned();
        self.managed = false;
    }

    /// Points at a server the library manages on `port`.
    pub fn use_managed(&mut self, port: u16)
        ensures
            final(self).host_text() == managed_host(port),
            final(self).is_managed(),
    {
        let mut h = "http://127.0.0.1:".to_owned();
        let p = decimal(port as u64);
        h.append(p.as_str());
        self.host = h;
        self.managed = true;
    }

    pub fn host(&self) -> (r: &str)
        ensures
            r@ == self.host_text(),
    {
        self.host.as_str()
    }

    /// Whether starting the backend spawns the server (only when managed).
    pub fn spawns_on_start(&self) -> (r: bool)
        ensures
            r == self.is_managed(),
    {
        self.managed
    }

    /// Whether stopping the backend shuts the server down (only when managed).
    pub fn shuts_down_on_stop(&self) -> (r: bool)
        ensures
            r == self.is_managed(),
    {
        self.managed
    }
}

/// The server the library manages never has the address of the user's own.
pub proof fn lemma_managed_host_is_not_external()
    ensures
        managed_host(process::MANAGED_PORT) != external_host(),
{
    reveal_strlit("http://127.0.0.1:");
    reveal_strlit("http://127.0.0.1:11434");
    let d = decimal_text(11435);
    assert(d == decimal_text(1143).push('5'));
    let m = managed_host(process::MANAGED_PORT);
    assert(m == "http://127.0.0.1:"@ + d);
    assert(m.last() == '5');
    assert(external_host().last() == '4');
}

} // verus!
