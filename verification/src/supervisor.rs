//! The monitor supervisor: a single slot that owns at most one handle to the
//! persistent helper process.
//!
//! `start` is idempotent and reconciles orphans only on a fresh start from
//! the idle state; `stop` is idempotent and always clears the slot, even
//! when terminating the held process reports an error, so the supervisor can
//! never wedge holding a handle it cannot account for. The transition
//! drivers here take the host's process table and the spawn outcomes as
//! values (an instrumented backend: tests supply fakes; the application
//! performs the same steps against the real host).

use crate::host::{orphan_pids, spec_orphans, HostProcessRecord};
use crate::launcher::ElevationPolicy;
use crate::monitor::{run_start, spec_start, spec_start_tried, SpawnOutcome, StartError};
use vstd::prelude::*;
use vstd::set::axiom_set_empty_len;
use vstd::set::axiom_set_insert_len;

verus! {

/// The supervisor's single slot: the handle of the running monitor process,
/// when one is believed alive.
pub struct Supervisor {
    pub handle: Option<u64>,
}

/// One observable step of a start transition, in the order performed.
#[derive(Debug, PartialEq, Eq)]
pub enum StartStep {
    KillOrphan { pid: u32 },
    SpawnAttempt { idx: usize },
}

/// What a start transition did: which host processes were killed as
/// orphans, how many spawns were attempted, and every step in order — all
/// orphan kills strictly precede the first spawn attempt.
#[derive(Debug)]
pub struct StartReport {
    pub kills: Vec<u32>,
    pub spawn_attempts: usize,
    pub steps: Vec<StartStep>,
}

impl Supervisor {
    /// A fresh supervisor holds nothing.
    pub fn new() -> (s: Self)
        ensures
            s.handle is None,
    {
        Supervisor { handle: None }
    }

    /// The set of live handles this supervisor accounts for.
    pub open spec fn live_handles(self) -> Set<u64> {
        match self.handle {
            Some(h) => Set::empty().insert(h),
            None => Set::empty(),
        }
    }

    /// In every reachable state the supervisor holds at most one live
    /// handle: the slot is a single `Option`, so no sequence of start and
    /// stop transitions can accumulate a second one.
    pub proof fn lemma_at_most_one_handle(self)
        ensures
            self.live_handles().len() <= 1,
    {
        broadcast use axiom_set_empty_len, axiom_set_insert_len;

        match self.handle {
            Some(h) => {
                assert(self.live_handles().len() == 1);
            },
            None => {
                assert(self.live_handles().len() == 0);
            },
        }
    }

    pub fn is_running(&self) -> (b: bool)
        ensures
            b == (self.handle is Some),
    {
        self.handle.is_some()
    }

    /// Commits a freshly spawned handle; only a fresh start may do so.
    pub fn commit_start(&mut self, handle: u64)
        requires
            old(self).handle is None,
        ensures
            final(self).handle == Some(handle),
    {
        self.handle = Some(handle);
    }

    /// Drains the slot for a stop: hands out the held handle, if any, and
    /// leaves the supervisor idle whatever happens to the kill afterwards.
    pub fn take_handle(&mut self) -> (h: Option<u64>)
        ensures
            final(self).handle is None,
            h == old(self).handle,
    {
        self.handle.take()
    }
}

/// The full start transition over a given host table and spawn-outcome
/// table. When the supervisor already holds a handle, the start is a no-op
/// success: no orphan is killed and no spawn is attempted. On a fresh start
/// the orphans of the table are killed, then candidates are spawned in order
/// until one succeeds; its handle is committed. On total failure the
/// supervisor stays idle and the last spawn error (or the generic
/// no-interpreter error) is surfaced.
pub fn start_monitor_with(
    sup: &mut Supervisor,
    procs: &Vec<HostProcessRecord>,
    exe: &String,
    script: &String,
    policy: ElevationPolicy,
    outcomes: &Vec<SpawnOutcome>,
) -> (r: (Result<(), StartError>, StartReport))
    ensures
        old(sup).handle is Some ==> {
            &&& r.0 is Ok
            &&& *final(sup) == *old(sup)
            &&& r.1.kills@ == Seq::<u32>::empty()
            &&& r.1.spawn_attempts == 0
            &&& r.1.steps@ == Seq::<StartStep>::empty()
        },
        old(sup).handle is None ==> {
            &&& r.1.kills@ == spec_orphans(procs@, exe@, script@)
            &&& r.1.spawn_attempts == spec_start_tried(outcomes@, 0)
            &&& r.1.steps@ == spec_orphans(procs@, exe@, script@).map_values(
                |p: u32| (StartStep::KillOrphan { pid: p }),
            ) + Seq::new(
                spec_start_tried(outcomes@, 0) as nat,
                |t: int| (StartStep::SpawnAttempt { idx: t as usize }),
            )
            &&& (match spec_start(outcomes@, 0, None) {
                Ok(h) => r.0 is Ok && final(sup).handle == Some(h),
                Err(e) => r.0 == Err::<(), StartError>(e) && final(sup).handle is None,
            })
        },
{
    if sup.is_running() {
        return (
            Ok(()),
            StartReport { kills: Vec::new(), spawn_attempts: 0, steps: Vec::new() },
        );
    }
    let kills = orphan_pids(procs, exe, script);
    let mut steps: Vec<StartStep> = Vec::new();
    let mut i: usize = 0;
    while i < kills.len()
        invariant
            i <= kills@.len(),
            steps@ == kills@.subrange(0, i as int).map_values(
                |p: u32| (StartStep::KillOrphan { pid: p }),
            ),
        decreases kills@.len() - i,
    {
        steps.push(StartStep::KillOrphan { pid: kills[i] });
        assert(steps@ =~= kills@.subrange(0, i + 1).map_values(
            |p: u32| (StartStep::KillOrphan { pid: p }),
        ));
        i = i + 1;
    }
    assert(kills@.subrange(0, kills@.len() as int) =~= kills@);
    let (outcome, spawn_attempts) = run_start(policy, outcomes);
    let ghost kill_steps = steps@;
    let mut j: usize = 0;
    while j < spawn_attempts
        invariant
            j <= spawn_attempts,
            steps@ == kill_steps + Seq::new(
                j as nat,
                |t: int| (StartStep::SpawnAttempt { idx: t as usize }),
            ),
        decreases spawn_attempts - j,
    {
        steps.push(StartStep::SpawnAttempt { idx: j });
        assert(steps@ =~= kill_steps + Seq::new(
            (j + 1) as nat,
            |t: int| (StartStep::SpawnAttempt { idx: t as usize }),
        ));
        j = j + 1;
    }
    match outcome {
        Ok(h) => {
            sup.commit_start(h);
            (Ok(()), StartReport { kills, spawn_attempts, steps })
        },
        Err(e) => (Err(e), StartReport { kills, spawn_attempts, steps }),
    }
}

/// The full stop transition. When idle, stopping is a no-op success and no
/// kill is attempted. When a handle is held, exactly one kill is attempted
/// (`kill_error` being what terminating the held process reported), the
/// slot is cleared either way, and a termination error is surfaced.
pub fn stop_monitor_with(sup: &mut Supervisor, kill_error: &Option<String>) -> (r: (
    Result<(), String>,
    usize,
))
    ensures
        old(sup).handle is None ==> {
            &&& r.0 is Ok
            &&& r.1 == 0
            &&& *final(sup) == *old(sup)
        },
        old(sup).handle is Some ==> {
            &&& r.1 == 1
            &&& final(sup).handle is None
            &&& (match *kill_error {
                None => r.0 is Ok,
                Some(e) => r.0 == Err::<(), String>(e),
            })
        },
{
    match sup.take_handle() {
        None => (Ok(()), 0),
        Some(_handle) => {
            match kill_error {
                None => (Ok(()), 1),
                Some(e) => (Err(e.clone()), 1),
            }
        },
    }
}

} // verus!
