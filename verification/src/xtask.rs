//! The build automation tasks: which task a command line asks for and the
//! cargo invocations each task makes. Running cargo is the caller's
//! business.

use vstd::prelude::*;
use crate::ai::history::str_eq;
use crate::engine::args::texts;

verus! {

/// A build task.
#[derive(Debug, Clone, Copy, PartialEq, Eq, Structural)]
pub enum Task {
    Build,
    BuildAll,
    Test,
    Dist,
    Help,
}

/// The task a first argument names; no argument or an unknown one asks for
/// help.
pub open spec fn task_of(arg: Option<Seq<char>>) -> Task {
    match arg {
        Some(a) => if a == "build"@ {
            Task::Build
        } else if a == "build-all"@ {
            Task::BuildAll
        } else if a == "test"@ {
            Task::Test
        } else if a == "dist"@ {
            Task::Dist
        } else {
            Task::Help
        },
        None => Task::Help,
    }
}

/// The task a first argument names.
pub fn parse_task(arg: Option<&str>) -> (r: Task)
    ensures
        r == task_of(
            match arg {
                Some(a) => Some(a@),
                None => None,
            },
        ),
{
    match arg {
        Some(a) => if str_eq(a, "build") {
            Task::Build
        } else if str_eq(a, "build-all") {
            Task::BuildAll
        } else if str_eq(a, "test") {
            Task::Test
        } else if str_eq(a, "dist") {
            Task::Dist
        } else {
            Task::Help
        },
        None => Task::Help,
    }
}

/// Whether `--release` is among the arguments.
pub open spec fn has_release(args: Seq<String>) -> bool {
    exists|i: int| 0 <= i < args.len() && #[trigger] args[i]@ == "--release"@
}

/// The cargo arguments of a build: a workspace build, optimised when
/// `--release` is given.
pub fn build_args(args: &[String]) -> (r: Vec<String>)
    ensures
        texts(r@) == if has_release(args@) {
            seq!["build"@, "--workspace"@, "--release"@]
        } else {
            seq!["build"@, "--workspace"@]
        },
{
    let mut release = false;
    let mut i: usize = 0;
    while i < args.len()
        invariant
            i <= args@.len(),
            release == exists|j: int| 0 <= j < i && #[trigger] args@[j]@ == "--release"@,
        decreases args@.len() - i,
    {
        if str_eq(args[i].as_str(), "--release") {
            release = true;
        }
        i = i + 1;
    }
    let mut r: Vec<String> = Vec::new();
    r.push(String::from_str("build"));
    r.push(String::from_str("--workspace"));
    if release {
        r.push(String::from_str("--release"));
    }
    assert(texts(r@) =~= if has_release(args@) {
        seq!["build"@, "--workspace"@, "--release"@]
    } else {
        seq!["build"@, "--workspace"@]
    });
    r
}

/// The cargo arguments of the test task: the workspace's tests.
pub fn test_args() -> (r: Vec<String>)
    ensures
        texts(r@) == seq!["test"@, "--workspace"@],
{
    let r = vec![String::from_str("test"), String::from_str("--workspace")];
    assert(texts(r@) =~= seq!["test"@, "--workspace"@]);
    r
}

} // verus!
