//! The supervisor's lifecycle state and launch sequence: the handle of the
//! one tracked backend process, the plan the launch path executes (reap, then
//! spawn, then a fixed grace period), and the model facts that make the reaper
//! and the terminator best-effort.

use vstd::prelude::*;

use crate::command::kill_pid_command;
use crate::command::reap_command;
use crate::command::spawn_command;
use crate::command::ShellCommand;
use crate::os::spec_shell_flag;
use crate::os::spec_shell_program;
use crate::os::Os;
use crate::path_resolver::resolve_backend_path;
use crate::path_resolver::spec_backend_path;
use crate::strutil::dec_rep;
use crate::strutil::u64_to_string;

verus! {

/// The fixed grace period, in seconds, the caller blocks for after spawning:
/// the backend has no readiness handshake.
pub const GRACE_SECS: u64 = 2;

/// Handle to the spawned backend process: its OS-assigned process id. The
/// identifier crosses the GUI boundary as a plain decimal string.
#[derive(Clone, Copy, PartialEq, Eq, Structural, Debug)]
pub struct BackendHandle {
    pub pid: u64,
}

impl BackendHandle {
    /// Wraps the OS-assigned process id of a freshly spawned backend.
    pub fn new(pid: u64) -> (h: Self)
        ensures
            h.pid == pid,
    {
        BackendHandle { pid }
    }

    /// The identifier as a decimal string, as handed across the GUI boundary.
    pub fn pid_string(&self) -> (r: String)
        ensures
            r@ == dec_rep(self.pid as nat),
    {
        u64_to_string(self.pid)
    }
}

/// The supervisor's shared lifecycle state: at most one backend process is
/// held at any time, by construction of the single slot.
pub struct Supervisor {
    pub os: Os,
    pub backend: Option<BackendHandle>,
}

impl Supervisor {
    /// A supervisor for `os` with no backend recorded yet.
    pub fn new(os: Os) -> (s: Self)
        ensures
            s.os == os,
            s.backend is None,
    {
        Supervisor { os, backend: None }
    }

    /// Records the handle of the backend just spawned; any handle recorded
    /// before is replaced, keeping the at-most-one invariant.
    pub fn record_launch(&mut self, handle: BackendHandle)
        ensures
            final(self).os == old(self).os,
            final(self).backend == Some(handle),
    {
        self.backend = Some(handle);
    }

    /// The recorded process identifier as a decimal string, if a backend is
    /// held.
    pub fn backend_pid_string(&self) -> (r: Option<String>)
        ensures
            self.backend matches Some(h) ==> r matches Some(s) && s@ == dec_rep(h.pid as nat),
            self.backend is None ==> r is None,
    {
        match &self.backend {
            Some(h) => Some(h.pid_string()),
            None => None,
        }
    }

    /// Termination Controller, handle path: the force-kill command for the
    /// recorded backend, used on application quit. `None` when nothing is
    /// held — never an error, since the application is exiting regardless.
    pub fn terminate_backend(&self) -> (r: Option<ShellCommand>)
        ensures
            self.backend matches Some(h) ==> r matches Some(c) && c.program@ == spec_shell_program(
                self.os,
            ) && (self.os is Windows ==> c.args@.len() == 3 && c.args@[0]@ == spec_shell_flag(
                self.os,
            ) && c.args@[1]@ == "Taskkill /F /PID"@ && c.args@[2]@ == dec_rep(h.pid as nat)) && (
            self.os is Unix ==> c.args@.len() == 2 && c.args@[0]@ == spec_shell_flag(self.os)
                && c.args@[1]@ == "kill -9 "@ + dec_rep(h.pid as nat)),
            self.backend is None ==> r is None,
    {
        match &self.backend {
            Some(h) => {
                let pid = h.pid_string();
                Some(kill_pid_command(self.os, pid.as_str()))
            },
            None => None,
        }
    }
}

/// Everything the launch sequence will execute, computed up front: the reaper
/// command, the resolved binary path, the spawn command for it, and the grace
/// period the caller must block for afterwards.
pub struct LaunchPlan {
    pub reap: ShellCommand,
    pub binary_path: String,
    pub spawn: ShellCommand,
    pub grace_secs: u64,
}

/// Computes the whole launch sequence from the executable's directory: reap
/// stale instances of the backend by name, spawn the resolved binary through
/// the platform shell, then wait the fixed grace period. If the spawn itself
/// fails, startup must not continue as if the backend were running.
pub fn launch_plan(os: Os, exe_dir: &str) -> (p: LaunchPlan)
    ensures
        p.binary_path@ == spec_backend_path(os, exe_dir@),
        p.reap.program@ == spec_shell_program(os),
        p.reap.args@.len() == 2,
        p.reap.args@[0]@ == spec_shell_flag(os),
        p.reap.args@[1]@ == crate::command::spec_reap_argument(os),
        p.spawn.program@ == spec_shell_program(os),
        p.spawn.args@.len() == 2,
        p.spawn.args@[0]@ == spec_shell_flag(os),
        p.spawn.args@[1]@ == spec_backend_path(os, exe_dir@),
        p.grace_secs == GRACE_SECS,
{
    let reap = reap_command(os);
    let binary_path = resolve_backend_path(os, exe_dir);
    let spawn = spawn_command(os, binary_path.as_str());
    LaunchPlan { reap, binary_path, spawn, grace_secs: GRACE_SECS }
}

/// What the caller observed of the reaper command: it killed something, it
/// matched no process, or it could not be run at all. All three are plain
/// observations, not errors of the supervisor.
#[derive(Clone, Copy, PartialEq, Eq, Structural, Debug)]
pub enum ReapOutcome {
    Killed,
    NoMatch,
    Failed,
}

/// The command the launch sequence runs after reaping: always the plan's
/// spawn command, whatever the reaper observed.
pub open spec fn spec_spawn_after_reap(p: LaunchPlan, outcome: ReapOutcome) -> ShellCommand {
    p.spawn
}

/// The step after reaping is the spawn, unconditionally: the reaper is
/// best-effort, and failing to match or even to run never blocks the launch.
pub fn spawn_after_reap<'a>(p: &'a LaunchPlan, outcome: ReapOutcome) -> (c: &'a ShellCommand)
    ensures
        *c == spec_spawn_after_reap(*p, outcome),
{
    &p.spawn
}

/// The reaper's outcome never changes what is launched: any two outcomes lead
/// to the same spawn command.
pub proof fn lemma_reap_outcome_irrelevant(p: LaunchPlan, o1: ReapOutcome, o2: ReapOutcome)
    ensures
        spec_spawn_after_reap(p, o1) == spec_spawn_after_reap(p, o2),
{
}

/// Model of the OS process table: the set of live process ids. Executing a
/// force-kill command for `pid` removes it, and removing an id with no live
/// process is a no-op.
pub open spec fn apply_kill(live: Set<nat>, pid: nat) -> Set<nat> {
    live.remove(pid)
}

/// Termination is idempotent: a second kill of the same id — when no such
/// process runs any more — changes nothing and creates no process.
pub proof fn lemma_kill_idempotent(live: Set<nat>, pid: nat)
    ensures
        apply_kill(apply_kill(live, pid), pid) == apply_kill(live, pid),
        forall|q: nat| apply_kill(live, pid).contains(q) ==> live.contains(q),
{
    assert(apply_kill(apply_kill(live, pid), pid) =~= apply_kill(live, pid));
}

} // verus!
