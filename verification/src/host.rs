//! Host process records and orphan detection.
//!
//! A host process is observed as plain values: its identifier, executable
//! name and command-line arguments. An orphan is a process that runs the
//! monitor's interpreter executable with the monitor script named in some
//! argument while this supervisor holds no handle for it; such processes are
//! killed, best-effort, before a fresh start.

use crate::text::{contains_seq, contains_str};
use vstd::prelude::*;

verus! {

/// One host process, as observed when enumerating the process table.
#[derive(Debug)]
pub struct HostProcessRecord {
    /// Process identifier.
    pub pid: u32,
    /// Executable name.
    pub name: String,
    /// Command-line arguments.
    pub cmd: Vec<String>,
}

/// The record matches the monitor's interpreter executable and names the
/// monitor script in one of its arguments.
pub open spec fn is_orphan(r: HostProcessRecord, exe: Seq<char>, script: Seq<char>) -> bool {
    &&& r.name@ == exe
    &&& exists|i: int| 0 <= i < r.cmd@.len() && contains_seq(r.cmd@[i]@, script)
}

pub fn record_is_orphan(r: &HostProcessRecord, exe: &String, script: &String) -> (b: bool)
    ensures
        b == is_orphan(*r, exe@, script@),
{
    let name_matches: bool = r.name == *exe;
    if !name_matches {
        return false;
    }
    assert(r.name@ == exe@);
    let mut i: usize = 0;
    while i < r.cmd.len()
        invariant
            r.name@ == exe@,
            i <= r.cmd@.len(),
            forall|j: int| 0 <= j < i ==> !contains_seq(r.cmd@[j]@, script@),
        decreases r.cmd@.len() - i,
    {
        if contains_str(r.cmd[i].as_str(), script.as_str()) {
            return true;
        }
        i = i + 1;
    }
    false
}

/// The identifiers of the orphans in `procs`, in order.
pub open spec fn spec_orphans(
    procs: Seq<HostProcessRecord>,
    exe: Seq<char>,
    script: Seq<char>,
) -> Seq<u32>
    decreases procs.len(),
{
    if procs.len() == 0 {
        Seq::empty()
    } else {
        let rest = spec_orphans(procs.drop_last(), exe, script);
        if is_orphan(procs.last(), exe, script) {
            rest.push(procs.last().pid)
        } else {
            rest
        }
    }
}

/// The identifiers of every process in `procs` matching the monitor's
/// interpreter executable and script name, in table order.
pub fn orphan_pids(procs: &Vec<HostProcessRecord>, exe: &String, script: &String) -> (pids: Vec<
    u32,
>)
    ensures
        pids@ == spec_orphans(procs@, exe@, script@),
{
    let mut pids: Vec<u32> = Vec::new();
    let mut i: usize = 0;
    while i < procs.len()
        invariant
            i <= procs@.len(),
            pids@ == spec_orphans(procs@.subrange(0, i as int), exe@, script@),
        decreases procs@.len() - i,
    {
        assert(procs@.subrange(0, i + 1).drop_last() =~= procs@.subrange(0, i as int));
        assert(procs@.subrange(0, i + 1).last() == procs@[i as int]);
        if record_is_orphan(&procs[i], exe, script) {
            pids.push(procs[i].pid);
        }
        i = i + 1;
    }
    assert(procs@.subrange(0, procs@.len() as int) =~= procs@);
    pids
}

/// Relies on sysinfo's process enumeration: `System::new_all`,
/// `System::refresh_processes_specifics` over all processes, and
/// `System::processes`, converting each entry's `pid`, `name` and `cmd` to
/// plain values. The table depends on the host at the moment of the call, so
/// nothing is promised of the result.
#[verifier::external_body]
fn host_processes() -> Vec<HostProcessRecord> {
    let mut system = sysinfo::System::new_all();
    system.refresh_processes_specifics(
        sysinfo::ProcessesToUpdate::All,
        true,
        sysinfo::ProcessRefreshKind::everything(),
    );
    system
        .processes()
        .iter()
        .map(|(pid, p)| HostProcessRecord {
            pid: pid.as_u32(),
            name: p.name().to_string_lossy().into_owned(),
            cmd: p.cmd().iter().map(|a| a.to_string_lossy().into_owned()).collect(),
        })
        .collect()
}

/// Relies on sysinfo `System::process` and `Process::kill`: sends a kill
/// signal to the process with the given identifier, if it exists; returns
/// whether a signal was sent. Best-effort: nothing is promised of the host's
/// response.
#[verifier::external_body]
fn kill_host_process(pid: u32) -> bool {
    let system = sysinfo::System::new_all();
    match system.process(sysinfo::Pid::from_u32(pid)) {
        Some(p) => p.kill(),
        None => false,
    }
}

/// Best-effort orphan reconciliation before a fresh monitor start:
/// enumerates the host's processes and issues a kill for every orphan.
/// Kill failures are swallowed; reconciliation never blocks the start.
/// Returns the observed table and the identifiers a kill was attempted on,
/// which are exactly the orphans of that table.
pub fn reconcile_orphans(exe: &String, script: &String) -> (r: (
    Vec<HostProcessRecord>,
    Vec<u32>,
))
    ensures
        r.1@ == spec_orphans(r.0@, exe@, script@),
{
    let procs = host_processes();
    let pids = orphan_pids(&procs, exe, script);
    let mut i: usize = 0;
    while i < pids.len()
        decreases pids@.len() - i,
    {
        let _sent = kill_host_process(pids[i]);
        i = i + 1;
    }
    (procs, pids)
}

} // verus!
