//! Finding the tools of the host: a GNU Make and a C compiler.

use vstd::prelude::*;
use vstd::string::*;
use crate::text::{is_prefix, starts_with};

verus! {

/// Whether what a make candidate printed for its version shows it to be
/// GNU Make: the output begins with `GNU Make`, from its first character
/// on and in this case. A candidate that could not be run printed nothing.
pub open spec fn make_accepted(output: Option<Seq<char>>) -> bool {
    output matches Some(banner) && is_prefix("GNU Make"@, banner)
}

/// The make candidate tried at `index`: `make` first, `gmake` second.
pub open spec fn make_candidate_of(index: int) -> Option<Seq<char>> {
    if index == 0 {
        Some("make"@)
    } else if index == 1 {
        Some("gmake"@)
    } else {
        None
    }
}

/// The shell line that looks a compiler up on the host.
pub open spec fn compiler_lookup_of(compiler: Seq<char>) -> Seq<char> {
    "command -v \""@ + compiler + "\""@
}

/// The compiler to use: the discovered one if the host can invoke it.
pub open spec fn compiler_resolved(compiler: Seq<char>, invocable: bool) -> Option<Seq<char>> {
    if invocable {
        Some(compiler)
    } else {
        None
    }
}

/// Whether what a make candidate printed shows it to be GNU Make; `None`
/// stands for a candidate that could not be run.
pub fn check_make(output: Option<&str>) -> (accepted: bool)
    ensures
        accepted == make_accepted(output.deep_view()),
{
    match output {
        Some(banner) => starts_with(banner, "GNU Make"),
        None => false,
    }
}

/// The make candidate tried at `index`.
pub fn make_candidate(index: usize) -> (candidate: Option<&'static str>)
    ensures
        candidate.deep_view() == make_candidate_of(index as int),
{
    if index == 0 {
        Some("make")
    } else if index == 1 {
        Some("gmake")
    } else {
        None
    }
}

/// Arguments with which a make candidate prints its version and nothing
/// else; it is run with empty standard input.
pub fn make_version_args() -> (args: Vec<String>)
    ensures
        args.deep_view() == seq!["-f"@, "-"@, "--version"@],
{
    let mut args: Vec<String> = Vec::new();
    args.push(String::from_str("-f"));
    args.push(String::from_str("-"));
    args.push(String::from_str("--version"));
    assert(args.deep_view() =~= seq!["-f"@, "-"@, "--version"@]);
    args
}

/// The line handed to `sh -c` to see whether `compiler` can be invoked.
pub fn compiler_lookup(compiler: &str) -> (line: String)
    ensures
        line@ == compiler_lookup_of(compiler@),
{
    let mut line = String::from_str("command -v \"");
    line.append(compiler);
    line.append("\"");
    line
}

/// Decides on the compiler from what discovery named and whether the
/// lookup found it.
pub fn compiler(discovered: String, invocable: bool) -> (resolved: Option<String>)
    ensures
        resolved.deep_view() == compiler_resolved(discovered@, invocable),
{
    if invocable {
        Some(discovered)
    } else {
        None
    }
}

} // verus!
