//! The operating-system families the supervisor distinguishes, and the fixed
//! per-OS conventions: the backend binary's filename, the path separator, and
//! the command shell used for every OS interaction.

use vstd::prelude::*;

verus! {

/// The two OS families the supervisor distinguishes: everything is either
/// Windows-style (`cmd`, `\`, `taskkill`) or Unix-style (`sh`, `/`, `kill`).
#[derive(Clone, Copy, PartialEq, Eq, Structural, Debug)]
pub enum Os {
    Windows,
    Unix,
}

/// The path separator character for `os`.
pub open spec fn path_sep(os: Os) -> char {
    if os is Windows {
        '\\'
    } else {
        '/'
    }
}

/// The fixed backend binary filename for `os`; the name encodes the target
/// OS/architecture triple.
pub open spec fn spec_binary_name(os: Os) -> Seq<char> {
    if os is Windows {
        "dbnet-x86_64-pc-windows-msvc.exe"@
    } else {
        "dbnet-x86_64-apple-darwin"@
    }
}

/// The command shell program used for every OS interaction on `os`.
pub open spec fn spec_shell_program(os: Os) -> Seq<char> {
    if os is Windows {
        "cmd"@
    } else {
        "sh"@
    }
}

/// The shell's "run this command string" flag on `os`.
pub open spec fn spec_shell_flag(os: Os) -> Seq<char> {
    if os is Windows {
        "/C"@
    } else {
        "-c"@
    }
}

/// The fixed backend binary filename for `os`.
pub fn binary_name(os: Os) -> (r: &'static str)
    ensures
        r@ == spec_binary_name(os),
{
    match os {
        Os::Windows => "dbnet-x86_64-pc-windows-msvc.exe",
        Os::Unix => "dbnet-x86_64-apple-darwin",
    }
}

/// The path separator of `os`, as a one-character string.
pub fn path_sep_str(os: Os) -> (r: &'static str)
    ensures
        r@ == seq![path_sep(os)],
{
    match os {
        Os::Windows => {
            let r: &'static str = "\\";
            proof {
                reveal_strlit("\\");
                assert(r@ =~= seq![path_sep(os)]);
            }
            r
        },
        Os::Unix => {
            let r: &'static str = "/";
            proof {
                reveal_strlit("/");
                assert(r@ =~= seq![path_sep(os)]);
            }
            r
        },
    }
}

/// The path separator of `os`, as a character.
pub fn path_sep_char(os: Os) -> (c: char)
    ensures
        c == path_sep(os),
{
    match os {
        Os::Windows => '\\',
        Os::Unix => '/',
    }
}

/// The command shell program of `os`.
pub fn shell_program(os: Os) -> (r: &'static str)
    ensures
        r@ == spec_shell_program(os),
{
    match os {
        Os::Windows => "cmd",
        Os::Unix => "sh",
    }
}

/// The shell's "run this command string" flag of `os`.
pub fn shell_flag(os: Os) -> (r: &'static str)
    ensures
        r@ == spec_shell_flag(os),
{
    match os {
        Os::Windows => "/C",
        Os::Unix => "-c",
    }
}

} // verus!
