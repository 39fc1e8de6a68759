//! Path Resolver: computes the backend binary's expected location from the
//! running application's executable path, accounting for development versus
//! packaged layouts and the per-OS binary naming convention.

use vstd::prelude::*;
use vstd::string::StringExecFns;

use crate::os::binary_name;
use crate::os::path_sep;
use crate::os::path_sep_char;
use crate::os::path_sep_str;
use crate::os::spec_binary_name;
use crate::os::Os;
use crate::strutil::contains_pattern;
use crate::strutil::contains_seq;
use crate::strutil::ends_with_pattern;
use crate::strutil::ends_with_seq;
use crate::strutil::parent_of;
use crate::strutil::strip_last_component;

verus! {

/// The build-subsystem marker segment that a development-layout directory
/// contains.
pub open spec fn build_marker() -> Seq<char> {
    "src-tauri"@
}

/// The debug-build marker segment that a development-layout directory ends
/// with.
pub open spec fn debug_marker() -> Seq<char> {
    "debug"@
}

/// The development-layout heuristic: the executable's directory contains the
/// build-subsystem marker and ends with the debug-build marker. This is a
/// substring/suffix test on the path text, not a path-semantics check; a
/// misclassified path surfaces later as a spawn failure, not here.
pub open spec fn spec_is_dev_layout(dir: Seq<char>) -> bool {
    contains_seq(dir, build_marker()) && ends_with_seq(dir, debug_marker())
}

/// The fixed relative offset walked up from a development-layout directory to
/// reach the development-time location of the backend binary.
pub open spec fn spec_dev_ancestor_suffix(os: Os) -> Seq<char> {
    if os is Windows {
        "\\..\\..\\..\\.."@
    } else {
        "/../../../.."@
    }
}

/// The directory the binary filename is appended to: the executable's
/// directory itself, or — for a development layout — that directory with the
/// fixed ancestor offset appended.
pub open spec fn spec_resolved_dir(os: Os, dir: Seq<char>) -> Seq<char> {
    if spec_is_dev_layout(dir) {
        dir + spec_dev_ancestor_suffix(os)
    } else {
        dir
    }
}

/// The backend binary's full path: the resolved directory, the separator,
/// and the per-OS binary filename.
pub open spec fn spec_backend_path(os: Os, dir: Seq<char>) -> Seq<char> {
    spec_resolved_dir(os, dir) + seq![path_sep(os)] + spec_binary_name(os)
}

/// True iff `dir` looks like a development build layout.
pub fn is_dev_layout(dir: &str) -> (r: bool)
    ensures
        r == spec_is_dev_layout(dir@),
{
    contains_pattern(dir, "src-tauri") && ends_with_pattern(dir, "debug")
}

fn dev_ancestor_suffix(os: Os) -> (r: &'static str)
    ensures
        r@ == spec_dev_ancestor_suffix(os),
{
    match os {
        Os::Windows => "\\..\\..\\..\\..",
        Os::Unix => "/../../../..",
    }
}

/// Resolves the backend binary's expected path from the executable's
/// directory. No existence check is made: a wrong or missing path surfaces as
/// a launch failure.
pub fn resolve_backend_path(os: Os, exe_dir: &str) -> (r: String)
    ensures
        r@ == spec_backend_path(os, exe_dir@),
{
    let mut r = String::new();
    r.append(exe_dir);
    if is_dev_layout(exe_dir) {
        r.append(dev_ancestor_suffix(os));
    }
    r.append(path_sep_str(os));
    r.append(binary_name(os));
    proof {
        assert(r@ =~= spec_backend_path(os, exe_dir@));
    }
    r
}

/// The executable's containing directory: the characters of `exe_path`
/// before its last separator. Exposed to the GUI layer for diagnostics; it
/// depends only on `exe_path`, never on any ambient working directory.
pub fn get_cwd(os: Os, exe_path: &str) -> (r: String)
    ensures
        r@ == parent_of(exe_path@, path_sep(os)),
{
    strip_last_component(exe_path, path_sep_char(os))
}

/// The resolver always appends the fixed per-OS filename: every resolved
/// path ends with the separator followed by that filename, so the filename
/// after the last separator is exactly the per-OS binary name.
pub proof fn lemma_backend_path_filename(os: Os, dir: Seq<char>)
    ensures
        ends_with_seq(spec_backend_path(os, dir), spec_binary_name(os)),
        ends_with_seq(spec_backend_path(os, dir), seq![path_sep(os)] + spec_binary_name(os)),
{
    let p = spec_backend_path(os, dir);
    let name = spec_binary_name(os);
    let tail = seq![path_sep(os)] + name;
    assert(p.subrange(p.len() - name.len(), p.len() as int) =~= name);
    assert(p.subrange(p.len() - tail.len(), p.len() as int) =~= tail);
}

/// A development-layout directory is rewritten to the documented ancestor
/// before the filename is appended; any other directory gets the filename
/// appended directly.
pub proof fn lemma_dev_layout_rewrite(os: Os, dir: Seq<char>)
    ensures
        spec_is_dev_layout(dir) ==> spec_backend_path(os, dir) == dir + spec_dev_ancestor_suffix(
            os,
        ) + seq![path_sep(os)] + spec_binary_name(os),
        !spec_is_dev_layout(dir) ==> spec_backend_path(os, dir) == dir + seq![path_sep(os)]
            + spec_binary_name(os),
{
}

} // verus!
