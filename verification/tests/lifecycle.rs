use dbnet_supervisor::command::{
    browser_url, kill_pid_command, open_browser_command, reap_command, spawn_command,
};
use dbnet_supervisor::os::Os;
use dbnet_supervisor::supervisor::{
    launch_plan, spawn_after_reap, BackendHandle, ReapOutcome, Supervisor, GRACE_SECS,
};

#[test]
fn spawn_goes_through_platform_shell() {
    let c = spawn_command(Os::Unix, "/opt/app/dbnet-x86_64-apple-darwin");
    assert_eq!(c.program, "sh");
    assert_eq!(c.args, vec!["-c".to_string(), "/opt/app/dbnet-x86_64-apple-darwin".to_string()]);

    let w = spawn_command(Os::Windows, "C:\\app\\dbnet-x86_64-pc-windows-msvc.exe");
    assert_eq!(w.program, "cmd");
    assert_eq!(
        w.args,
        vec!["/C".to_string(), "C:\\app\\dbnet-x86_64-pc-windows-msvc.exe".to_string()]
    );
}

#[test]
fn reaper_kills_by_fixed_binary_name() {
    let u = reap_command(Os::Unix);
    assert_eq!(u.program, "sh");
    assert_eq!(
        u.args,
        vec!["-c".to_string(), "pkill -f \"dbnet-x86_64-apple-darwin\"".to_string()]
    );

    let w = reap_command(Os::Windows);
    assert_eq!(w.program, "cmd");
    assert_eq!(
        w.args,
        vec!["/C".to_string(), "Taskkill /F /IM dbnet-x86_64-pc-windows-msvc.exe".to_string()]
    );
}

#[test]
fn kill_by_pid_is_forced_and_immediate() {
    let u = kill_pid_command(Os::Unix, "4242");
    assert_eq!(u.program, "sh");
    assert_eq!(u.args, vec!["-c".to_string(), "kill -9 4242".to_string()]);

    let w = kill_pid_command(Os::Windows, "4242");
    assert_eq!(w.program, "cmd");
    assert_eq!(
        w.args,
        vec!["/C".to_string(), "Taskkill /F /PID".to_string(), "4242".to_string()]
    );
}

#[test]
fn launch_plan_resolves_reaps_then_spawns() {
    let p = launch_plan(Os::Unix, "/Applications/App.app/Contents/MacOS");
    assert_eq!(p.binary_path, "/Applications/App.app/Contents/MacOS/dbnet-x86_64-apple-darwin");
    assert_eq!(p.reap.program, "sh");
    assert_eq!(
        p.reap.args,
        vec!["-c".to_string(), "pkill -f \"dbnet-x86_64-apple-darwin\"".to_string()]
    );
    assert_eq!(p.spawn.program, "sh");
    assert_eq!(p.spawn.args, vec!["-c".to_string(), p.binary_path.clone()]);
    assert_eq!(p.grace_secs, GRACE_SECS);
    assert_eq!(p.grace_secs, 2);
}

#[test]
fn reap_outcome_never_blocks_launch() {
    let p = launch_plan(Os::Unix, "/opt/app");
    let after_killed = spawn_after_reap(&p, ReapOutcome::Killed).clone();
    let after_no_match = spawn_after_reap(&p, ReapOutcome::NoMatch).clone();
    let after_failed = spawn_after_reap(&p, ReapOutcome::Failed).clone();
    assert_eq!(after_killed, p.spawn);
    assert_eq!(after_no_match, p.spawn);
    assert_eq!(after_failed, p.spawn);
}

#[test]
fn handle_identifier_is_decimal_string() {
    assert_eq!(BackendHandle::new(4242).pid_string(), "4242");
    assert_eq!(BackendHandle::new(0).pid_string(), "0");
    assert_eq!(BackendHandle::new(7).pid_string(), "7");
    assert_eq!(BackendHandle::new(10).pid_string(), "10");
    assert_eq!(BackendHandle::new(u64::MAX).pid_string(), "18446744073709551615");
}

#[test]
fn nonzero_pid_yields_nonzero_numeric_identifier() {
    let id = BackendHandle::new(31337).pid_string();
    assert!(!id.is_empty());
    assert!(id.chars().all(|c| c.is_ascii_digit()));
    assert_ne!(id, "0");
    assert!(id.parse::<u64>().unwrap() > 0);
}

#[test]
fn supervisor_tracks_at_most_one_backend() {
    let mut s = Supervisor::new(Os::Unix);
    assert!(s.backend.is_none());
    assert!(s.backend_pid_string().is_none());
    assert!(s.terminate_backend().is_none());

    s.record_launch(BackendHandle::new(100));
    s.record_launch(BackendHandle::new(4242));
    assert_eq!(s.backend_pid_string(), Some("4242".to_string()));
}

#[test]
fn terminating_twice_is_idempotent() {
    let mut s = Supervisor::new(Os::Unix);
    s.record_launch(BackendHandle::new(4242));
    let first = s.terminate_backend().unwrap();
    let second = s.terminate_backend().unwrap();
    assert_eq!(first, second);
    assert_eq!(first.program, "sh");
    assert_eq!(first.args, vec!["-c".to_string(), "kill -9 4242".to_string()]);
}

#[test]
fn browser_command_opens_local_url() {
    let url = browser_url("5987");
    assert_eq!(url, "http://localhost:5987");

    let u = open_browser_command(Os::Unix, &url);
    assert_eq!(u.program, "sh");
    assert_eq!(u.args, vec!["-c".to_string(), "open http://localhost:5987".to_string()]);

    let w = open_browser_command(Os::Windows, &url);
    assert_eq!(w.program, "cmd");
    assert_eq!(
        w.args,
        vec![
            "/C".to_string(),
            "start".to_string(),
            "".to_string(),
            "http://localhost:5987".to_string()
        ]
    );
}

#[test]
fn launch_scenario_on_mac_layout() {
    let exe = "/Applications/App.app/Contents/MacOS/App";
    let cwd = dbnet_supervisor::path_resolver::get_cwd(Os::Unix, exe);
    let plan = launch_plan(Os::Unix, &cwd);
    assert_eq!(plan.binary_path, "/Applications/App.app/Contents/MacOS/dbnet-x86_64-apple-darwin");
    assert_eq!(plan.spawn.program, "sh");
    assert_eq!(plan.spawn.args[0], "-c");
    assert_eq!(plan.spawn.args[1], plan.binary_path);
    let handle = BackendHandle::new(4242);
    let id = handle.pid_string();
    assert!(id.chars().all(|c| c.is_ascii_digit()));
    assert_ne!(id.parse::<u64>().unwrap(), 0);
}
