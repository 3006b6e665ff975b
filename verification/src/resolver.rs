//! Interpreter resolution: the fixed, ordered candidate list of interpreter
//! command names to try, and the monitor's canonical names.

use crate::paths::seg_views;
use vstd::prelude::*;

verus! {

/// The candidate interpreter command names, in the order they are tried.
pub open spec fn spec_candidates() -> Seq<Seq<char>> {
    seq!["python"@, "python3"@, "py"@]
}

/// The ordered, non-empty candidate list of interpreter command names.
pub fn interpreter_candidates() -> (cs: Vec<String>)
    ensures
        seg_views(cs@) == spec_candidates(),
        cs@.len() == 3,
{
    let mut cs: Vec<String> = Vec::new();
    cs.push("python".to_owned());
    cs.push("python3".to_owned());
    cs.push("py".to_owned());
    assert(seg_views(cs@) =~= spec_candidates());
    cs
}

/// The canonical executable name orphan detection matches against.
pub fn monitor_exe_name() -> (s: String)
    ensures
        s@ == "python.exe"@,
{
    "python.exe".to_owned()
}

/// The monitor script's file name, looked for in orphan command lines.
pub fn monitor_script_file() -> (s: String)
    ensures
        s@ == "keyboard_monitor.py"@,
{
    "keyboard_monitor.py".to_owned()
}

} // verus!
