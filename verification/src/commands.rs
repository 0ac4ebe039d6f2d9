//! The exact argument lists handed to the external tools, one builder per
//! invocation kind.  The runner spawns the processes; the library owns what
//! they are asked to do.

use vstd::prelude::*;

verus! {

/// The test filter handed to the documentation-example stage: it matches no
/// actual test, so the toolchain compiles every documentation example
/// without executing any.
pub open spec fn spec_doc_filter() -> Seq<char> {
    "bet_u_dont_have_a_test_called_this"@
}

fn push_lit(args: &mut Vec<String>, s: &str)
    ensures
        final(args)@.len() == old(args)@.len() + 1,
        final(args)@ == old(args)@.push(final(args)@.last()),
        final(args)@.last()@ == s@,
{
    args.push(String::from_str(s));
    proof {
        assert(args@ == old(args)@.push(args@.last()));
    }
}

/// The build tool's compile-check of all targets, with every optional
/// feature enabled when the session runs in all-features mode.
pub fn check_args(all_features: bool) -> (r: Vec<String>)
    ensures
        !all_features ==> r@.len() == 2,
        all_features ==> r@.len() == 3 && r@[2]@ == "--all-features"@,
        r@[0]@ == "check"@,
        r@[1]@ == "--all-targets"@,
{
    let mut args: Vec<String> = Vec::new();
    push_lit(&mut args, "check");
    push_lit(&mut args, "--all-targets");
    if all_features {
        push_lit(&mut args, "--all-features");
    }
    args
}

/// The build tool's release build of all targets.
pub fn build_args(all_features: bool) -> (r: Vec<String>)
    ensures
        !all_features ==> r@.len() == 3,
        all_features ==> r@.len() == 4 && r@[3]@ == "--all-features"@,
        r@[0]@ == "build"@,
        r@[1]@ == "--all-targets"@,
        r@[2]@ == "--release"@,
{
    let mut args: Vec<String> = Vec::new();
    push_lit(&mut args, "build");
    push_lit(&mut args, "--all-targets");
    push_lit(&mut args, "--release");
    if all_features {
        push_lit(&mut args, "--all-features");
    }
    args
}

/// The documentation-example compilation: a test run scoped to documentation
/// examples whose filter matches no test.
pub fn doc_test_args(all_features: bool) -> (r: Vec<String>)
    ensures
        !all_features ==> r@.len() == 4,
        all_features ==> r@.len() == 5 && r@[4]@ == "--all-features"@,
        r@[0]@ == "test"@,
        r@[1]@ == "--doc"@,
        r@[2]@ == "--release"@,
        r@[3]@ == spec_doc_filter(),
{
    let mut args: Vec<String> = Vec::new();
    push_lit(&mut args, "test");
    push_lit(&mut args, "--doc");
    push_lit(&mut args, "--release");
    push_lit(&mut args, "bet_u_dont_have_a_test_called_this");
    if all_features {
        push_lit(&mut args, "--all-features");
    }
    args
}

/// The manifest-removal tool's invocation: the subcommand, the group flag
/// when the group has one, then the dependency name.
pub fn remove_args(flag: &Option<String>, name: &String) -> (r: Vec<String>)
    ensures
        r@[0]@ == "rm"@,
        match flag {
            Some(f) => r@.len() == 3 && r@[1]@ == f@ && r@[2]@ == name@,
            None => r@.len() == 2 && r@[1]@ == name@,
        },
{
    let mut args: Vec<String> = Vec::new();
    push_lit(&mut args, "rm");
    match flag {
        Some(f) => push_lit(&mut args, f.as_str()),
        None => (),
    }
    push_lit(&mut args, name.as_str());
    args
}

/// The check that the manifest-removal tool can be invoked at all.
pub fn removal_tool_probe_args() -> (r: Vec<String>)
    ensures
        r@.len() == 2,
        r@[0]@ == "rm"@,
        r@[1]@ == "--help"@,
{
    let mut args: Vec<String> = Vec::new();
    push_lit(&mut args, "rm");
    push_lit(&mut args, "--help");
    args
}

/// The version-control query for pending changes.
pub fn status_args() -> (r: Vec<String>)
    ensures
        r@.len() == 2,
        r@[0]@ == "status"@,
        r@[1]@ == "--porcelain"@,
{
    let mut args: Vec<String> = Vec::new();
    push_lit(&mut args, "status");
    push_lit(&mut args, "--porcelain");
    args
}

/// The version-control reset that discards all uncommitted changes.
pub fn reset_args() -> (r: Vec<String>)
    ensures
        r@.len() == 2,
        r@[0]@ == "reset"@,
        r@[1]@ == "--hard"@,
{
    let mut args: Vec<String> = Vec::new();
    push_lit(&mut args, "reset");
    push_lit(&mut args, "--hard");
    args
}

/// The usage oracle's recursive, quiet, language-scoped search for the
/// pattern inside the module directory.
pub fn oracle_args(pattern: &String, dir: &String) -> (r: Vec<String>)
    ensures
        r@.len() == 5,
        r@[0]@ == "--type"@,
        r@[1]@ == "rust"@,
        r@[2]@ == "-q"@,
        r@[3]@ == pattern@,
        r@[4]@ == dir@,
{
    let mut args: Vec<String> = Vec::new();
    push_lit(&mut args, "--type");
    push_lit(&mut args, "rust");
    push_lit(&mut args, "-q");
    push_lit(&mut args, pattern.as_str());
    push_lit(&mut args, dir.as_str());
    args
}

} // verus!
