//! Fire-and-forget launching of the persistent monitor process.
//!
//! One spawn is attempted per candidate, elevated or direct according to the
//! platform's policy; the first spawn that succeeds decides the start and
//! later candidates are never tried. The machine holds the decisions; the
//! surrounding application performs the spawns and hands back the outcomes.

use crate::launcher::ElevationPolicy;
use vstd::prelude::*;

verus! {

/// What one spawn attempt produced: a running process handle, or the spawn
/// error's description.
#[derive(Debug, PartialEq, Eq)]
pub enum SpawnOutcome {
    Spawned { handle: u64 },
    Failed { error: String },
}

/// Failure of a monitor start.
#[derive(Debug, PartialEq, Eq)]
pub enum StartError {
    /// No candidate ever produced a spawn error: none was available.
    NoInterpreter,
    /// Every candidate failed to spawn; the last error's description.
    SpawnFailed { error: String },
}

/// What the monitor launch machine asks for next.
#[derive(Debug, PartialEq, Eq)]
pub enum StartAction {
    /// Spawn candidate `idx`, through the elevation mechanism when
    /// `elevated` holds.
    Spawn { idx: usize, elevated: bool },
    /// The start is decided.
    Finished { result: Result<u64, StartError> },
}

/// The fire-and-forget algorithm, resumed at candidate `i` with `last` as
/// the last spawn error: the first spawn that succeeds returns its handle;
/// exhaustion fails with the last spawn error, or the generic no-interpreter
/// error when none was ever recorded.
pub open spec fn spec_start(
    outcomes: Seq<SpawnOutcome>,
    i: int,
    last: Option<String>,
) -> Result<u64, StartError>
    decreases outcomes.len() - i,
{
    if i < 0 || i >= outcomes.len() {
        Err(
            match last {
                Some(e) => StartError::SpawnFailed { error: e },
                None => StartError::NoInterpreter,
            },
        )
    } else {
        match outcomes[i] {
            SpawnOutcome::Spawned { handle } => Ok(handle),
            SpawnOutcome::Failed { error } => spec_start(outcomes, i + 1, Some(error)),
        }
    }
}

/// How many spawns the fire-and-forget algorithm attempts from `i` on.
pub open spec fn spec_start_tried(outcomes: Seq<SpawnOutcome>, i: int) -> int
    decreases outcomes.len() - i,
{
    if i < 0 || i >= outcomes.len() {
        0
    } else {
        match outcomes[i] {
            SpawnOutcome::Spawned { .. } => 1,
            SpawnOutcome::Failed { .. } => 1 + spec_start_tried(outcomes, i + 1),
        }
    }
}

/// The monitor launch state machine over `n` candidates.
pub struct MonitorLaunch {
    pub n: usize,
    pub policy: ElevationPolicy,
    /// The next candidate to try.
    pub idx: usize,
    /// The last recorded spawn error.
    pub last_error: Option<String>,
    /// The decided result, once a spawn succeeded.
    pub done: Option<Result<u64, StartError>>,
}

impl MonitorLaunch {
    pub open spec fn wf(self) -> bool {
        self.idx <= self.n
    }

    pub open spec fn spec_action(self) -> StartAction {
        match self.done {
            Some(r) => StartAction::Finished { result: r },
            None => {
                if self.idx < self.n {
                    StartAction::Spawn {
                        idx: self.idx,
                        elevated: self.policy == ElevationPolicy::RequiresElevation,
                    }
                } else {
                    StartAction::Finished {
                        result: Err(
                            match self.last_error {
                                Some(e) => StartError::SpawnFailed { error: e },
                                None => StartError::NoInterpreter,
                            },
                        ),
                    }
                }
            },
        }
    }

    /// The state after feeding the outcome of the requested spawn.
    pub open spec fn spec_feed(m: Self, o: SpawnOutcome) -> Self {
        match o {
            SpawnOutcome::Spawned { handle } => Self { done: Some(Ok(handle)), ..m },
            SpawnOutcome::Failed { error } => Self {
                idx: (m.idx + 1) as usize,
                last_error: Some(error),
                ..m
            },
        }
    }

    pub fn new(n: usize, policy: ElevationPolicy) -> (m: Self)
        ensures
            m.wf(),
            m == (MonitorLaunch { n, policy, idx: 0usize, last_error: None, done: None }),
    {
        MonitorLaunch { n, policy, idx: 0, last_error: None, done: None }
    }

    pub fn next_action(&self) -> (a: StartAction)
        requires
            self.wf(),
        ensures
            a == self.spec_action(),
    {
        match &self.done {
            Some(r) => StartAction::Finished { result: clone_start_result(r) },
            None => {
                if self.idx < self.n {
                    StartAction::Spawn {
                        idx: self.idx,
                        elevated: self.policy == ElevationPolicy::RequiresElevation,
                    }
                } else {
                    match &self.last_error {
                        Some(e) => StartAction::Finished {
                            result: Err(StartError::SpawnFailed { error: e.clone() }),
                        },
                        None => StartAction::Finished { result: Err(StartError::NoInterpreter) },
                    }
                }
            },
        }
    }

    pub fn feed(&mut self, o: SpawnOutcome)
        requires
            old(self).wf(),
            old(self).spec_action() matches StartAction::Spawn { .. },
        ensures
            final(self).wf(),
            *final(self) == Self::spec_feed(*old(self), o),
    {
        match o {
            SpawnOutcome::Spawned { handle } => {
                self.done = Some(Ok(handle));
            },
            SpawnOutcome::Failed { error } => {
                self.last_error = Some(error);
                self.idx = self.idx + 1;
            },
        }
    }
}

pub fn clone_start_error(e: &StartError) -> (r: StartError)
    ensures
        r == *e,
{
    match e {
        StartError::NoInterpreter => StartError::NoInterpreter,
        StartError::SpawnFailed { error } => StartError::SpawnFailed { error: error.clone() },
    }
}

pub fn clone_start_result(r: &Result<u64, StartError>) -> (c: Result<u64, StartError>)
    ensures
        c == *r,
{
    match r {
        Ok(h) => Ok(*h),
        Err(e) => Err(clone_start_error(e)),
    }
}

pub fn clone_spawn_outcome(o: &SpawnOutcome) -> (c: SpawnOutcome)
    ensures
        c == *o,
{
    match o {
        SpawnOutcome::Spawned { handle } => SpawnOutcome::Spawned { handle: *handle },
        SpawnOutcome::Failed { error } => SpawnOutcome::Failed { error: error.clone() },
    }
}

/// Runs the monitor launch machine to completion over an outcome table:
/// entry `i` is what spawning candidate `i` would produce. Returns the
/// decided result and how many spawns were attempted.
pub fn run_start(policy: ElevationPolicy, outcomes: &Vec<SpawnOutcome>) -> (r: (
    Result<u64, StartError>,
    usize,
))
    ensures
        r.0 == spec_start(outcomes@, 0, None),
        r.1 == spec_start_tried(outcomes@, 0),
{
    let n = outcomes.len();
    let mut m = MonitorLaunch::new(n, policy);
    let mut tried: usize = 0;
    loop
        invariant
            m.wf(),
            m.n == n,
            m.policy == policy,
            n == outcomes@.len(),
            m.done is None ==> {
                &&& tried == m.idx
                &&& spec_start(outcomes@, 0, None) == spec_start(
                    outcomes@,
                    m.idx as int,
                    m.last_error,
                )
                &&& spec_start_tried(outcomes@, 0) == tried + spec_start_tried(
                    outcomes@,
                    m.idx as int,
                )
            },
            m.done matches Some(r) ==> {
                &&& r == spec_start(outcomes@, 0, None)
                &&& tried == spec_start_tried(outcomes@, 0)
            },
        decreases 2 * (n - m.idx) + (if m.done is Some {
            0int
        } else {
            1int
        }),
    {
        match m.next_action() {
            StartAction::Finished { result } => {
                return (result, tried);
            },
            StartAction::Spawn { idx, elevated } => {
                let o = clone_spawn_outcome(&outcomes[idx]);
                tried = tried + 1;
                m.feed(o);
            },
        }
    }
}

} // verus!
