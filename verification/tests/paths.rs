use dbnet_supervisor::os::{binary_name, Os};
use dbnet_supervisor::path_resolver::{get_cwd, is_dev_layout, resolve_backend_path};

#[test]
fn resolves_plain_layout_unix() {
    let p = resolve_backend_path(Os::Unix, "/Applications/App.app/Contents/MacOS");
    assert_eq!(p, "/Applications/App.app/Contents/MacOS/dbnet-x86_64-apple-darwin");
}

#[test]
fn resolves_plain_layout_windows() {
    let p = resolve_backend_path(Os::Windows, "C:\\Program Files\\App");
    assert_eq!(p, "C:\\Program Files\\App\\dbnet-x86_64-pc-windows-msvc.exe");
}

#[test]
fn resolves_dev_layout_unix() {
    let p = resolve_backend_path(Os::Unix, "/home/dev/app/frontend/src-tauri/target/debug");
    assert_eq!(
        p,
        "/home/dev/app/frontend/src-tauri/target/debug/../../../../dbnet-x86_64-apple-darwin"
    );
}

#[test]
fn resolves_dev_layout_windows() {
    let p = resolve_backend_path(Os::Windows, "C:\\dev\\app\\src-tauri\\target\\debug");
    assert_eq!(
        p,
        "C:\\dev\\app\\src-tauri\\target\\debug\\..\\..\\..\\..\\dbnet-x86_64-pc-windows-msvc.exe"
    );
}

#[test]
fn dev_layout_needs_both_markers() {
    assert!(is_dev_layout("/a/src-tauri/target/debug"));
    assert!(!is_dev_layout("/a/src-tauri/target/release"));
    assert!(!is_dev_layout("/a/other/target/debug"));
    assert!(!is_dev_layout(""));
}

#[test]
fn marker_without_suffix_appends_directly() {
    let p = resolve_backend_path(Os::Unix, "/a/src-tauri/target/release");
    assert_eq!(p, "/a/src-tauri/target/release/dbnet-x86_64-apple-darwin");
    let q = resolve_backend_path(Os::Unix, "/a/other/target/debug");
    assert_eq!(q, "/a/other/target/debug/dbnet-x86_64-apple-darwin");
}

#[test]
fn resolved_filename_matches_os_convention() {
    for os in [Os::Windows, Os::Unix] {
        let sep = if os == Os::Windows { '\\' } else { '/' };
        for dir in ["/some/dir", "/a/src-tauri/target/debug"] {
            let p = resolve_backend_path(os, dir);
            let filename = p.rsplit(sep).next().unwrap();
            assert_eq!(filename, binary_name(os));
        }
    }
}

#[test]
fn cwd_is_parent_of_executable() {
    let d = get_cwd(Os::Unix, "/Applications/App.app/Contents/MacOS/App");
    assert_eq!(d, "/Applications/App.app/Contents/MacOS");
}

#[test]
fn cwd_windows_parent() {
    let d = get_cwd(Os::Windows, "C:\\Program Files\\App\\app.exe");
    assert_eq!(d, "C:\\Program Files\\App");
}

#[test]
fn cwd_without_separator_is_empty() {
    let d = get_cwd(Os::Unix, "App");
    assert_eq!(d, "");
}
