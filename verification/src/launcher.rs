//! Candidate-fallback launching.
//!
//! Both launch algorithms are state machines over plain outcome values: the
//! surrounding application performs one spawn per requested action and hands
//! the observed outcome back, so every decision the launcher makes is
//! verified here. The table drivers run the same machines over a prepared
//! outcome table (an instrumented backend, used by tests).

use vstd::prelude::*;

verus! {

/// Whether this platform launches through the host's elevation mechanism.
#[derive(Clone, Copy, PartialEq, Eq, Structural, Debug)]
pub enum ElevationPolicy {
    RequiresElevation,
    DirectOnly,
}

/// Failure of a blocking run.
#[derive(Debug, PartialEq, Eq)]
pub enum RunError {
    /// No candidate ever produced an error: none could be started.
    NoInterpreter,
    /// The last candidate tried exited with failure status; its captured
    /// standard-error text.
    ScriptFailed { stderr: String },
    /// A successful run's captured output could not be decoded.
    OutputDecode { detail: String },
}

/// What a direct spawn-and-wait of one candidate produced.
#[derive(Debug, PartialEq, Eq)]
pub enum DirectOutcome {
    /// The spawn itself failed (executable missing, permission denied).
    NotStarted,
    /// The process ran to completion. `stdout` is the decoded standard
    /// output, or the decode failure's description.
    Completed { exit_ok: bool, stdout: Result<String, String>, stderr: String },
}

/// What an elevated spawn-and-wait of one candidate produced. An elevated
/// run that exits successfully decides the blocking run with its own
/// captured output, decoded exactly as a direct run's would be; this makes
/// the elevated branch return output rather than bare success.
#[derive(Debug, PartialEq, Eq)]
pub enum ElevatedOutcome {
    NotStarted,
    Completed { exit_ok: bool, stdout: Result<String, String> },
}

/// What the blocking machine asks for next.
#[derive(Debug, PartialEq, Eq)]
pub enum BlockingAction {
    /// Spawn candidate `idx` directly and wait for it.
    TryDirect { idx: usize },
    /// Spawn candidate `idx` through the elevation mechanism and wait.
    TryElevated { idx: usize },
    /// The run is decided.
    Finished { result: Result<String, RunError> },
}

/// The result of the elevated sub-attempt of candidate `i`, given that the
/// run continues at `i + 1` when the sub-attempt is swallowed.
pub open spec fn spec_elevated_result(
    policy: ElevationPolicy,
    direct: Seq<DirectOutcome>,
    elevated: Seq<ElevatedOutcome>,
    i: int,
    last: Option<RunError>,
    eo: ElevatedOutcome,
) -> Result<String, RunError>
    decreases direct.len() - i, 0int,
{
    if i < 0 || i >= direct.len() {
        Err(
            match last {
                Some(e) => e,
                None => RunError::NoInterpreter,
            },
        )
    } else {
        match eo {
            ElevatedOutcome::Completed { exit_ok, stdout } => {
                if exit_ok {
                    match stdout {
                        Ok(s) => Ok(s),
                        Err(d) => Err(RunError::OutputDecode { detail: d }),
                    }
                } else {
                    spec_blocking(policy, direct, elevated, i + 1, last)
                }
            },
            ElevatedOutcome::NotStarted => spec_blocking(policy, direct, elevated, i + 1, last),
        }
    }
}

/// The blocking algorithm, resumed at candidate `i` with `last` as the last
/// recorded error: first direct success wins and returns its decoded output;
/// a failure status records the candidate's stderr and falls through; a spawn
/// that could not start falls through, after an elevated sub-attempt when the
/// policy allows one, whose failures are swallowed; exhaustion fails with the
/// last recorded error or the generic no-interpreter error.
pub open spec fn spec_blocking(
    policy: ElevationPolicy,
    direct: Seq<DirectOutcome>,
    elevated: Seq<ElevatedOutcome>,
    i: int,
    last: Option<RunError>,
) -> Result<String, RunError>
    decreases direct.len() - i, 1int,
{
    if i < 0 || i >= direct.len() {
        Err(
            match last {
                Some(e) => e,
                None => RunError::NoInterpreter,
            },
        )
    } else {
        match direct[i] {
            DirectOutcome::Completed { exit_ok, stdout, stderr } => {
                if exit_ok {
                    match stdout {
                        Ok(s) => Ok(s),
                        Err(d) => Err(RunError::OutputDecode { detail: d }),
                    }
                } else {
                    spec_blocking(
                        policy,
                        direct,
                        elevated,
                        i + 1,
                        Some(RunError::ScriptFailed { stderr }),
                    )
                }
            },
            DirectOutcome::NotStarted => {
                if policy == ElevationPolicy::RequiresElevation && i < elevated.len() {
                    spec_elevated_result(policy, direct, elevated, i, last, elevated[i])
                } else {
                    spec_blocking(policy, direct, elevated, i + 1, last)
                }
            },
        }
    }
}

/// How many candidates the elevated sub-attempt path tries, counting its own.
pub open spec fn spec_tried_elevated(
    policy: ElevationPolicy,
    direct: Seq<DirectOutcome>,
    elevated: Seq<ElevatedOutcome>,
    i: int,
    eo: ElevatedOutcome,
) -> int
    decreases direct.len() - i, 0int,
{
    if i < 0 || i >= direct.len() {
        0
    } else {
        match eo {
            ElevatedOutcome::Completed { exit_ok, stdout } => {
                if exit_ok {
                    1
                } else {
                    1 + spec_tried(policy, direct, elevated, i + 1)
                }
            },
            ElevatedOutcome::NotStarted => 1 + spec_tried(policy, direct, elevated, i + 1),
        }
    }
}

/// How many candidates the blocking algorithm tries from `i` on.
pub open spec fn spec_tried(
    policy: ElevationPolicy,
    direct: Seq<DirectOutcome>,
    elevated: Seq<ElevatedOutcome>,
    i: int,
) -> int
    decreases direct.len() - i, 1int,
{
    if i < 0 || i >= direct.len() {
        0
    } else {
        match direct[i] {
            DirectOutcome::Completed { exit_ok, .. } => {
                if exit_ok {
                    1
                } else {
                    1 + spec_tried(policy, direct, elevated, i + 1)
                }
            },
            DirectOutcome::NotStarted => {
                if policy == ElevationPolicy::RequiresElevation && i < elevated.len() {
                    spec_tried_elevated(policy, direct, elevated, i, elevated[i])
                } else {
                    1 + spec_tried(policy, direct, elevated, i + 1)
                }
            },
        }
    }
}

/// The blocking launch state machine over `n` candidates.
pub struct BlockingRun {
    /// Number of candidates.
    pub n: usize,
    pub policy: ElevationPolicy,
    /// The candidate currently under trial, or the next one to try.
    pub idx: usize,
    /// The direct spawn of `idx` could not start and an elevated sub-attempt
    /// is owed.
    pub awaiting_elevation: bool,
    /// The last recorded candidate error.
    pub last_error: Option<RunError>,
    /// The decided result, once any attempt is terminal.
    pub done: Option<Result<String, RunError>>,
}

impl BlockingRun {
    pub open spec fn wf(self) -> bool {
        &&& self.idx <= self.n
        &&& (self.awaiting_elevation ==> self.idx < self.n && self.done is None)
    }

    pub open spec fn spec_action(self) -> BlockingAction {
        match self.done {
            Some(r) => BlockingAction::Finished { result: r },
            None => {
                if self.awaiting_elevation {
                    BlockingAction::TryElevated { idx: self.idx }
                } else if self.idx < self.n {
                    BlockingAction::TryDirect { idx: self.idx }
                } else {
                    BlockingAction::Finished {
                        result: Err(
                            match self.last_error {
                                Some(e) => e,
                                None => RunError::NoInterpreter,
                            },
                        ),
                    }
                }
            },
        }
    }

    /// The state after feeding a direct outcome for candidate `idx`.
    pub open spec fn spec_feed_direct(m: Self, o: DirectOutcome) -> Self {
        match o {
            DirectOutcome::Completed { exit_ok, stdout, stderr } => {
                if exit_ok {
                    Self {
                        done: Some(
                            match stdout {
                                Ok(s) => Ok(s),
                                Err(d) => Err(RunError::OutputDecode { detail: d }),
                            },
                        ),
                        ..m
                    }
                } else {
                    Self {
                        idx: (m.idx + 1) as usize,
                        last_error: Some(RunError::ScriptFailed { stderr }),
                        ..m
                    }
                }
            },
            DirectOutcome::NotStarted => {
                if m.policy == ElevationPolicy::RequiresElevation {
                    Self { awaiting_elevation: true, ..m }
                } else {
                    Self { idx: (m.idx + 1) as usize, ..m }
                }
            },
        }
    }

    /// The state after feeding the owed elevated outcome for candidate `idx`:
    /// an elevated success is terminal, everything else is swallowed.
    pub open spec fn spec_feed_elevated(m: Self, o: ElevatedOutcome) -> Self {
        match o {
            ElevatedOutcome::Completed { exit_ok, stdout } => {
                if exit_ok {
                    Self {
                        awaiting_elevation: false,
                        done: Some(
                            match stdout {
                                Ok(s) => Ok(s),
                                Err(d) => Err(RunError::OutputDecode { detail: d }),
                            },
                        ),
                        ..m
                    }
                } else {
                    Self { awaiting_elevation: false, idx: (m.idx + 1) as usize, ..m }
                }
            },
            ElevatedOutcome::NotStarted => Self {
                awaiting_elevation: false,
                idx: (m.idx + 1) as usize,
                ..m
            },
        }
    }

    pub fn new(n: usize, policy: ElevationPolicy) -> (m: Self)
        ensures
            m.wf(),
            m == (BlockingRun {
                n,
                policy,
                idx: 0usize,
                awaiting_elevation: false,
                last_error: None,
                done: None,
            }),
    {
        BlockingRun { n, policy, idx: 0, awaiting_elevation: false, last_error: None, done: None }
    }

    pub fn next_action(&self) -> (a: BlockingAction)
        requires
            self.wf(),
        ensures
            a == self.spec_action(),
    {
        match &self.done {
            Some(r) => BlockingAction::Finished { result: clone_run_result(r) },
            None => {
                if self.awaiting_elevation {
                    BlockingAction::TryElevated { idx: self.idx }
                } else if self.idx < self.n {
                    BlockingAction::TryDirect { idx: self.idx }
                } else {
                    match &self.last_error {
                        Some(e) => BlockingAction::Finished { result: Err(clone_run_error(e)) },
                        None => BlockingAction::Finished { result: Err(RunError::NoInterpreter) },
                    }
                }
            },
        }
    }

    pub fn feed_direct(&mut self, o: DirectOutcome)
        requires
            old(self).wf(),
            old(self).spec_action() matches BlockingAction::TryDirect { .. },
        ensures
            final(self).wf(),
            *final(self) == Self::spec_feed_direct(*old(self), o),
    {
        match o {
            DirectOutcome::Completed { exit_ok, stdout, stderr } => {
                if exit_ok {
                    match stdout {
                        Ok(s) => {
                            self.done = Some(Ok(s));
                        },
                        Err(d) => {
                            self.done = Some(Err(RunError::OutputDecode { detail: d }));
                        },
                    }
                } else {
                    self.last_error = Some(RunError::ScriptFailed { stderr });
                    self.idx = self.idx + 1;
                }
            },
            DirectOutcome::NotStarted => {
                if self.policy == ElevationPolicy::RequiresElevation {
                    self.awaiting_elevation = true;
                } else {
                    self.idx = self.idx + 1;
                }
            },
        }
    }

    pub fn feed_elevated(&mut self, o: ElevatedOutcome)
        requires
            old(self).wf(),
            old(self).spec_action() matches BlockingAction::TryElevated { .. },
        ensures
            final(self).wf(),
            *final(self) == Self::spec_feed_elevated(*old(self), o),
    {
        match o {
            ElevatedOutcome::Completed { exit_ok, stdout } => {
                if exit_ok {
                    match stdout {
                        Ok(s) => {
                            self.done = Some(Ok(s));
                        },
                        Err(d) => {
                            self.done = Some(Err(RunError::OutputDecode { detail: d }));
                        },
                    }
                    self.awaiting_elevation = false;
                } else {
                    self.awaiting_elevation = false;
                    self.idx = self.idx + 1;
                }
            },
            ElevatedOutcome::NotStarted => {
                self.awaiting_elevation = false;
                self.idx = self.idx + 1;
            },
        }
    }
}

pub fn clone_run_error(e: &RunError) -> (r: RunError)
    ensures
        r == *e,
{
    match e {
        RunError::NoInterpreter => RunError::NoInterpreter,
        RunError::ScriptFailed { stderr } => RunError::ScriptFailed { stderr: stderr.clone() },
        RunError::OutputDecode { detail } => RunError::OutputDecode { detail: detail.clone() },
    }
}

pub fn clone_run_result(r: &Result<String, RunError>) -> (c: Result<String, RunError>)
    ensures
        c == *r,
{
    match r {
        Ok(s) => Ok(s.clone()),
        Err(e) => Err(clone_run_error(e)),
    }
}

pub fn clone_direct_outcome(o: &DirectOutcome) -> (c: DirectOutcome)
    ensures
        c == *o,
{
    match o {
        DirectOutcome::NotStarted => DirectOutcome::NotStarted,
        DirectOutcome::Completed { exit_ok, stdout, stderr } => DirectOutcome::Completed {
            exit_ok: *exit_ok,
            stdout: match stdout {
                Ok(s) => Ok(s.clone()),
                Err(d) => Err(d.clone()),
            },
            stderr: stderr.clone(),
        },
    }
}

pub fn clone_elevated_outcome(o: &ElevatedOutcome) -> (c: ElevatedOutcome)
    ensures
        c == *o,
{
    match o {
        ElevatedOutcome::NotStarted => ElevatedOutcome::NotStarted,
        ElevatedOutcome::Completed { exit_ok, stdout } => ElevatedOutcome::Completed {
            exit_ok: *exit_ok,
            stdout: match stdout {
                Ok(s) => Ok(s.clone()),
                Err(d) => Err(d.clone()),
            },
        },
    }
}

/// Runs the blocking machine to completion over an outcome table: entry `i`
/// of each table is what spawning candidate `i` would produce. Returns the
/// decided result and how many candidates were tried.
pub fn run_blocking(
    policy: ElevationPolicy,
    direct: &Vec<DirectOutcome>,
    elevated: &Vec<ElevatedOutcome>,
) -> (r: (Result<String, RunError>, usize))
    requires
        direct@.len() == elevated@.len(),
    ensures
        r.0 == spec_blocking(policy, direct@, elevated@, 0, None),
        r.1 == spec_tried(policy, direct@, elevated@, 0),
{
    let n = direct.len();
    let mut m = BlockingRun::new(n, policy);
    let mut tried: usize = 0;
    loop
        invariant
            m.wf(),
            m.n == n,
            m.policy == policy,
            n == direct@.len(),
            n == elevated@.len(),
            (m.done is None && !m.awaiting_elevation) ==> {
                &&& tried == m.idx
                &&& spec_blocking(policy, direct@, elevated@, 0, None) == spec_blocking(
                    policy,
                    direct@,
                    elevated@,
                    m.idx as int,
                    m.last_error,
                )
                &&& spec_tried(policy, direct@, elevated@, 0) == tried + spec_tried(
                    policy,
                    direct@,
                    elevated@,
                    m.idx as int,
                )
            },
            m.awaiting_elevation ==> {
                &&& tried == m.idx + 1
                &&& spec_blocking(policy, direct@, elevated@, 0, None) == spec_elevated_result(
                    policy,
                    direct@,
                    elevated@,
                    m.idx as int,
                    m.last_error,
                    elevated@[m.idx as int],
                )
                &&& spec_tried(policy, direct@, elevated@, 0) == tried - 1 + spec_tried_elevated(
                    policy,
                    direct@,
                    elevated@,
                    m.idx as int,
                    elevated@[m.idx as int],
                )
            },
            m.done matches Some(r) ==> {
                &&& r == spec_blocking(policy, direct@, elevated@, 0, None)
                &&& tried == spec_tried(policy, direct@, elevated@, 0)
            },
        decreases 4 * (n - m.idx) + (if m.done is Some {
            0int
        } else if m.awaiting_elevation {
            1int
        } else {
            2int
        }),
    {
        match m.next_action() {
            BlockingAction::Finished { result } => {
                return (result, tried);
            },
            BlockingAction::TryDirect { idx } => {
                let o = clone_direct_outcome(&direct[idx]);
                tried = tried + 1;
                m.feed_direct(o);
            },
            BlockingAction::TryElevated { idx } => {
                let o = clone_elevated_outcome(&elevated[idx]);
                m.feed_elevated(o);
            },
        }
    }
}

/// A candidate that falls through in the blocking algorithm without deciding
/// the run: it exits with failure status, or cannot start and no elevated
/// sub-attempt succeeds.
pub open spec fn falls_through(
    policy: ElevationPolicy,
    o: DirectOutcome,
    eo: ElevatedOutcome,
) -> bool {
    match o {
        DirectOutcome::Completed { exit_ok, .. } => !exit_ok,
        DirectOutcome::NotStarted => policy == ElevationPolicy::DirectOnly || !(
        eo matches ElevatedOutcome::Completed { exit_ok: true, .. }),
    }
}

/// The last recorded error after candidate `i` falls through.
pub open spec fn spec_next_last(o: DirectOutcome, last: Option<RunError>) -> Option<RunError> {
    match o {
        DirectOutcome::Completed { stderr, .. } => Some(RunError::ScriptFailed { stderr }),
        DirectOutcome::NotStarted => last,
    }
}

/// One fall-through step: a candidate that decides nothing hands the run on
/// to the next candidate, recording its stderr when it exited with failure.
proof fn lemma_step_falls_through(
    policy: ElevationPolicy,
    direct: Seq<DirectOutcome>,
    elevated: Seq<ElevatedOutcome>,
    i: int,
    last: Option<RunError>,
)
    requires
        direct.len() == elevated.len(),
        0 <= i < direct.len(),
        falls_through(policy, direct[i], elevated[i]),
    ensures
        spec_blocking(policy, direct, elevated, i, last) == spec_blocking(
            policy,
            direct,
            elevated,
            i + 1,
            spec_next_last(direct[i], last),
        ),
        spec_tried(policy, direct, elevated, i) == 1 + spec_tried(policy, direct, elevated, i + 1),
{
    match direct[i] {
        DirectOutcome::Completed { exit_ok, stdout, stderr } => {
            assert(!exit_ok);
            assert(spec_blocking(policy, direct, elevated, i, last) == spec_blocking(
                policy,
                direct,
                elevated,
                i + 1,
                Some(RunError::ScriptFailed { stderr }),
            ));
            assert(spec_tried(policy, direct, elevated, i) == 1 + spec_tried(
                policy,
                direct,
                elevated,
                i + 1,
            ));
        },
        DirectOutcome::NotStarted => {
            if policy == ElevationPolicy::RequiresElevation {
                assert(spec_blocking(policy, direct, elevated, i, last) == spec_elevated_result(
                    policy,
                    direct,
                    elevated,
                    i,
                    last,
                    elevated[i],
                ));
                assert(spec_tried(policy, direct, elevated, i) == spec_tried_elevated(
                    policy,
                    direct,
                    elevated,
                    i,
                    elevated[i],
                ));
                match elevated[i] {
                    ElevatedOutcome::Completed { exit_ok, stdout } => {
                        assert(!exit_ok);
                        assert(spec_elevated_result(policy, direct, elevated, i, last, elevated[i])
                            == spec_blocking(policy, direct, elevated, i + 1, last));
                        assert(spec_tried_elevated(policy, direct, elevated, i, elevated[i]) == 1
                            + spec_tried(policy, direct, elevated, i + 1));
                    },
                    ElevatedOutcome::NotStarted => {
                        assert(spec_elevated_result(policy, direct, elevated, i, last, elevated[i])
                            == spec_blocking(policy, direct, elevated, i + 1, last));
                        assert(spec_tried_elevated(policy, direct, elevated, i, elevated[i]) == 1
                            + spec_tried(policy, direct, elevated, i + 1));
                    },
                }
            } else {
                assert(spec_blocking(policy, direct, elevated, i, last) == spec_blocking(
                    policy,
                    direct,
                    elevated,
                    i + 1,
                    last,
                ));
                assert(spec_tried(policy, direct, elevated, i) == 1 + spec_tried(
                    policy,
                    direct,
                    elevated,
                    i + 1,
                ));
            }
        },
    }
}

proof fn lemma_first_success_from(
    policy: ElevationPolicy,
    direct: Seq<DirectOutcome>,
    elevated: Seq<ElevatedOutcome>,
    i: int,
    k: int,
    last: Option<RunError>,
    s: String,
)
    requires
        direct.len() == elevated.len(),
        0 <= i <= k < direct.len(),
        forall|j: int| i <= j < k ==> falls_through(policy, direct[j], elevated[j]),
        direct[k] matches DirectOutcome::Completed { exit_ok: true, stdout, .. } && stdout == Ok::<
            String,
            String,
        >(s),
    ensures
        spec_blocking(policy, direct, elevated, i, last) == Ok::<String, RunError>(s),
        spec_tried(policy, direct, elevated, i) == k - i + 1,
    decreases k - i,
{
    if i == k {
        assert(spec_blocking(policy, direct, elevated, i, last) == Ok::<String, RunError>(s));
        assert(spec_tried(policy, direct, elevated, i) == 1);
    } else {
        assert(falls_through(policy, direct[i], elevated[i]));
        lemma_step_falls_through(policy, direct, elevated, i, last);
        lemma_first_success_from(
            policy,
            direct,
            elevated,
            i + 1,
            k,
            spec_next_last(direct[i], last),
            s,
        );
    }
}

/// The first candidate whose direct run succeeds decides the run: when every
/// candidate before `k` falls through and candidate `k` exits successfully
/// with decoded output `s`, the blocking run returns `Ok(s)` and tries
/// exactly the first `k + 1` candidates, never a later one.
pub proof fn lemma_first_success(
    policy: ElevationPolicy,
    direct: Seq<DirectOutcome>,
    elevated: Seq<ElevatedOutcome>,
    k: int,
    s: String,
)
    requires
        direct.len() == elevated.len(),
        0 <= k < direct.len(),
        forall|j: int| 0 <= j < k ==> falls_through(policy, direct[j], elevated[j]),
        direct[k] matches DirectOutcome::Completed { exit_ok: true, stdout, .. } && stdout == Ok::<
            String,
            String,
        >(s),
    ensures
        spec_blocking(policy, direct, elevated, 0, None) == Ok::<String, RunError>(s),
        spec_tried(policy, direct, elevated, 0) == k + 1,
{
    lemma_first_success_from(policy, direct, elevated, 0, k, None, s);
}

proof fn lemma_all_fall_through_from(
    policy: ElevationPolicy,
    direct: Seq<DirectOutcome>,
    elevated: Seq<ElevatedOutcome>,
    i: int,
    last: Option<RunError>,
)
    requires
        direct.len() == elevated.len(),
        0 <= i <= direct.len(),
        forall|j: int| i <= j < direct.len() ==> falls_through(policy, direct[j], elevated[j]),
        forall|j: int| i <= j < direct.len() ==> direct[j] is NotStarted,
    ensures
        spec_blocking(policy, direct, elevated, i, last) == Err::<String, RunError>(
            match last {
                Some(e) => e,
                None => RunError::NoInterpreter,
            },
        ),
        spec_tried(policy, direct, elevated, i) == direct.len() - i,
    decreases direct.len() - i,
{
    if i < direct.len() {
        assert(falls_through(policy, direct[i], elevated[i]));
        assert(direct[i] is NotStarted);
        lemma_step_falls_through(policy, direct, elevated, i, last);
        lemma_all_fall_through_from(policy, direct, elevated, i + 1, last);
    } else {
        assert(spec_blocking(policy, direct, elevated, i, last) == Err::<String, RunError>(
            match last {
                Some(e) => e,
                None => RunError::NoInterpreter,
            },
        ));
        assert(spec_tried(policy, direct, elevated, i) == 0);
    }
}

proof fn lemma_last_stderr_from(
    policy: ElevationPolicy,
    direct: Seq<DirectOutcome>,
    elevated: Seq<ElevatedOutcome>,
    i: int,
    k: int,
    last: Option<RunError>,
    er: String,
)
    requires
        direct.len() == elevated.len(),
        0 <= i <= k < direct.len(),
        forall|j: int| i <= j < direct.len() ==> falls_through(policy, direct[j], elevated[j]),
        direct[k] matches DirectOutcome::Completed { exit_ok: false, stderr, .. } && stderr == er,
        forall|j: int| k < j < direct.len() ==> direct[j] is NotStarted,
    ensures
        spec_blocking(policy, direct, elevated, i, last) == Err::<String, RunError>(
            RunError::ScriptFailed { stderr: er },
        ),
        spec_tried(policy, direct, elevated, i) == direct.len() - i,
    decreases k - i,
{
    assert(falls_through(policy, direct[i], elevated[i]));
    lemma_step_falls_through(policy, direct, elevated, i, last);
    if i == k {
        assert(spec_next_last(direct[k], last) == Some::<RunError>(
            RunError::ScriptFailed { stderr: er },
        ));
        lemma_all_fall_through_from(
            policy,
            direct,
            elevated,
            k + 1,
            Some(RunError::ScriptFailed { stderr: er }),
        );
    } else {
        lemma_last_stderr_from(
            policy,
            direct,
            elevated,
            i + 1,
            k,
            spec_next_last(direct[i], last),
            er,
        );
    }
}

/// When every candidate falls through, the run fails with the captured
/// stderr of the last candidate that exited with failure status (`k` being
/// that candidate), after trying every candidate.
pub proof fn lemma_all_fail_last_stderr(
    policy: ElevationPolicy,
    direct: Seq<DirectOutcome>,
    elevated: Seq<ElevatedOutcome>,
    k: int,
    er: String,
)
    requires
        direct.len() == elevated.len(),
        0 <= k < direct.len(),
        forall|j: int| 0 <= j < direct.len() ==> falls_through(policy, direct[j], elevated[j]),
        direct[k] matches DirectOutcome::Completed { exit_ok: false, stderr, .. } && stderr == er,
        forall|j: int| k < j < direct.len() ==> direct[j] is NotStarted,
    ensures
        spec_blocking(policy, direct, elevated, 0, None) == Err::<String, RunError>(
            RunError::ScriptFailed { stderr: er },
        ),
        spec_tried(policy, direct, elevated, 0) == direct.len(),
{
    lemma_last_stderr_from(policy, direct, elevated, 0, k, None, er);
}

/// When no candidate can be started at all (and no elevated sub-attempt
/// succeeds), the run fails with the generic no-interpreter error.
pub proof fn lemma_none_started(
    policy: ElevationPolicy,
    direct: Seq<DirectOutcome>,
    elevated: Seq<ElevatedOutcome>,
)
    requires
        direct.len() == elevated.len(),
        forall|j: int| 0 <= j < direct.len() ==> direct[j] is NotStarted && falls_through(
            policy,
            direct[j],
            elevated[j],
        ),
    ensures
        spec_blocking(policy, direct, elevated, 0, None) == Err::<String, RunError>(
            RunError::NoInterpreter,
        ),
        spec_tried(policy, direct, elevated, 0) == direct.len(),
{
    lemma_all_fall_through_from(policy, direct, elevated, 0, None);
}

} // verus!
