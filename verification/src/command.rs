//! The exact platform shell invocations the supervisor issues: spawning the
//! backend, force-killing stale instances by name, force-killing by process
//! id, and opening the default browser. Every OS interaction goes through the
//! platform shell (`cmd /C ...` or `sh -c ...`); these builders compute the
//! full command as plain values, and the unverified shell around the library
//! merely executes them.

use vstd::prelude::*;
use vstd::string::StringExecFns;

use crate::os::shell_flag;
use crate::os::shell_program;
use crate::os::spec_shell_flag;
use crate::os::spec_shell_program;
use crate::os::Os;

verus! {

/// A platform shell invocation: a program and its argument list, in order.
#[derive(Debug, Clone, PartialEq, Eq)]
pub struct ShellCommand {
    pub program: String,
    pub args: Vec<String>,
}

/// The fixed local port the backend serves on.
pub open spec fn backend_port() -> Seq<char> {
    "5987"@
}

/// The fixed local port the backend serves on.
pub fn backend_port_str() -> (r: &'static str)
    ensures
        r@ == backend_port(),
{
    "5987"
}

/// The single command-string argument handed to the shell to reap stale
/// backend instances: force-kill by image name on Windows, signal-based kill
/// by command-line substring elsewhere.
pub open spec fn spec_reap_argument(os: Os) -> Seq<char> {
    if os is Windows {
        "Taskkill /F /IM dbnet-x86_64-pc-windows-msvc.exe"@
    } else {
        "pkill -f \"dbnet-x86_64-apple-darwin\""@
    }
}

/// Process Launcher command: run the resolved binary through the platform
/// shell, so the same path works for a raw binary and for one needing shell
/// resolution.
pub fn spawn_command(os: Os, binary_path: &str) -> (c: ShellCommand)
    ensures
        c.program@ == spec_shell_program(os),
        c.args@.len() == 2,
        c.args@[0]@ == spec_shell_flag(os),
        c.args@[1]@ == binary_path@,
{
    let mut args: Vec<String> = Vec::new();
    args.push(shell_flag(os).to_owned());
    args.push(binary_path.to_owned());
    ShellCommand { program: shell_program(os).to_owned(), args }
}

/// Stale-Process Reaper command: best-effort force-kill of any process
/// matching the backend's fixed executable name.
pub fn reap_command(os: Os) -> (c: ShellCommand)
    ensures
        c.program@ == spec_shell_program(os),
        c.args@.len() == 2,
        c.args@[0]@ == spec_shell_flag(os),
        c.args@[1]@ == spec_reap_argument(os),
{
    let arg: &'static str = match os {
        Os::Windows => "Taskkill /F /IM dbnet-x86_64-pc-windows-msvc.exe",
        Os::Unix => "pkill -f \"dbnet-x86_64-apple-darwin\"",
    };
    let mut args: Vec<String> = Vec::new();
    args.push(shell_flag(os).to_owned());
    args.push(arg.to_owned());
    ShellCommand { program: shell_program(os).to_owned(), args }
}

/// Termination Controller command for `pid`: an immediate, unconditional
/// force-kill (`taskkill /F /PID <id>` or `kill -9 <id>`), with no graceful
/// escalation. Building it cannot fail; killing an id with no live process
/// is a no-op at the OS, never an error of the supervisor.
pub fn kill_pid_command(os: Os, pid: &str) -> (c: ShellCommand)
    ensures
        c.program@ == spec_shell_program(os),
        os is Windows ==> c.args@.len() == 3 && c.args@[0]@ == spec_shell_flag(os) && c.args@[1]@
            == "Taskkill /F /PID"@ && c.args@[2]@ == pid@,
        os is Unix ==> c.args@.len() == 2 && c.args@[0]@ == spec_shell_flag(os) && c.args@[1]@
            == "kill -9 "@ + pid@,
{
    let mut args: Vec<String> = Vec::new();
    args.push(shell_flag(os).to_owned());
    match os {
        Os::Windows => {
            args.push("Taskkill /F /PID".to_owned());
            args.push(pid.to_owned());
        },
        Os::Unix => {
            let mut arg = "kill -9 ".to_owned();
            arg.append(pid);
            args.push(arg);
        },
    }
    ShellCommand { program: shell_program(os).to_owned(), args }
}

/// The browser URL for the backend's fixed local port.
pub open spec fn spec_browser_url(port: Seq<char>) -> Seq<char> {
    "http://localhost:"@ + port
}

/// The URL of the locally served backend for `port`.
pub fn browser_url(port: &str) -> (r: String)
    ensures
        r@ == spec_browser_url(port@),
{
    let mut r = "http://localhost:".to_owned();
    r.append(port);
    r
}

/// Browser-opening command for `url`: `cmd /C start "" <url>` on Windows,
/// `sh -c open <url>` elsewhere. Best-effort: a failure is logged by the
/// caller and never propagated.
pub fn open_browser_command(os: Os, url: &str) -> (c: ShellCommand)
    ensures
        c.program@ == spec_shell_program(os),
        os is Windows ==> c.args@.len() == 4 && c.args@[0]@ == spec_shell_flag(os) && c.args@[1]@
            == "start"@ && c.args@[2]@ == ""@ && c.args@[3]@ == url@,
        os is Unix ==> c.args@.len() == 2 && c.args@[0]@ == spec_shell_flag(os) && c.args@[1]@
            == "open "@ + url@,
{
    let mut args: Vec<String> = Vec::new();
    args.push(shell_flag(os).to_owned());
    match os {
        Os::Windows => {
            args.push("start".to_owned());
            args.push("".to_owned());
            args.push(url.to_owned());
        },
        Os::Unix => {
            let mut arg = "open ".to_owned();
            arg.append(url);
            args.push(arg);
        },
    }
    ShellCommand { program: shell_program(os).to_owned(), args }
}

} // verus!
