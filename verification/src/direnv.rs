//! Loading a directory's environment through direnv: what the outcome of
//! running `direnv export json` there is, and which variables it exports.
use vstd::prelude::*;

verus! {

/// The variables that the JSON text `stdout` maps to, when it is one object
/// whose values are all strings; none otherwise.
pub uninterp spec fn direnv_exports(stdout: Seq<u8>) -> Option<Map<Seq<char>, Seq<char>>>;

/// `vars` lists the variables of `exports`, each once, in some order.
pub open spec fn lists_exports(vars: Seq<(String, String)>, exports: Map<Seq<char>, Seq<char>>) -> bool {
    &&& vars.len() == exports.dom().len()
    &&& forall|i: int, j: int|
        0 <= i < vars.len() && 0 <= j < vars.len() && i != j ==> (#[trigger] vars[i]).0@ != (
        #[trigger] vars[j]).0@
    &&& forall|i: int|
        0 <= i < vars.len() ==> exports.contains_key((#[trigger] vars[i]).0@) && exports[vars[i].0@]
            == vars[i].1@
    &&& forall|k: Seq<char>|
        #[trigger] exports.contains_key(k) ==> exists|i: int| 0 <= i < vars.len() && (#[trigger] vars[i]).0@ == k
}

/// Calls `serde_json::from_slice` to read `stdout` as a map from strings to
/// strings, and lists that map's entries. The contract claims that the
/// parse succeeds exactly where `direnv_exports` names a map, and that the
/// list holds each of its entries once; the list's order is that in which
/// the `HashMap` is walked, which is left unsaid.
#[verifier::external_body]
fn parse_direnv_exports(stdout: &[u8]) -> (r: Option<Vec<(String, String)>>)
    ensures
        r is Some <==> direnv_exports(stdout@) is Some,
        r is Some ==> lists_exports(r.unwrap()@, direnv_exports(stdout@).unwrap()),
{
    match serde_json::from_slice::<std::collections::HashMap<String, String>>(stdout) {
        Ok(vars) => Some(vars.into_iter().collect()),
        Err(_) => None,
    }
}

/// What came of loading direnv's environment for a directory.
#[derive(Debug)]
pub enum DirenvReport {
    /// The directory has no `.envrc`: direnv is not run.
    Skip,
    /// `direnv` could not be started.
    NotInstalled,
    /// `direnv export json` exited with a failure.
    ExportFailed,
    /// Its output is not a JSON object of strings; nothing is loaded.
    Unparsed,
    /// The variables to set, and how many there are.
    Loaded { vars: Vec<(String, String)>, count: usize },
}

/// The report on direnv's parsed output: the variables when it parsed,
/// else `Unparsed`.
pub fn report_exports(parsed: Option<Vec<(String, String)>>) -> (r: DirenvReport)
    ensures
        parsed is None ==> r is Unparsed,
        parsed is Some ==> (r matches DirenvReport::Loaded { vars, count } && vars@
            == parsed.unwrap()@ && count == vars.len()),
{
    match parsed {
        Some(vars) => {
            let count = vars.len();
            DirenvReport::Loaded { vars, count }
        },
        None => DirenvReport::Unparsed,
    }
}

/// Decide what loading direnv for a directory comes to: nothing without an
/// `.envrc`, else whether `direnv export json` could be started
/// (`spawned`) and exited successfully (`succeeded`), and then the
/// variables of its output `stdout`.
pub fn direnv_report(has_envrc: bool, spawned: bool, succeeded: bool, stdout: &[u8]) -> (r:
    DirenvReport)
    ensures
        !has_envrc ==> r is Skip,
        has_envrc && !spawned ==> r is NotInstalled,
        has_envrc && spawned && !succeeded ==> r is ExportFailed,
        has_envrc && spawned && succeeded ==> match direnv_exports(stdout@) {
            None => r is Unparsed,
            Some(exports) => r matches DirenvReport::Loaded { vars, count } && count == vars.len()
                && lists_exports(vars@, exports),
        },
{
    if !has_envrc {
        DirenvReport::Skip
    } else if !spawned {
        DirenvReport::NotInstalled
    } else if !succeeded {
        DirenvReport::ExportFailed
    } else {
        report_exports(parse_direnv_exports(stdout))
    }
}

} // verus!
