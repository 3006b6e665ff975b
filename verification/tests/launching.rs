use keymon_supervisor::launcher::{
    run_blocking, BlockingAction, BlockingRun, DirectOutcome, ElevatedOutcome, ElevationPolicy,
    RunError,
};

fn not_started_elevated(n: usize) -> Vec<ElevatedOutcome> {
    let mut v = Vec::new();
    for _ in 0..n {
        v.push(ElevatedOutcome::NotStarted);
    }
    v
}

#[test]
fn first_candidate_missing_second_succeeds() {
    // First candidate cannot start, second exits 0 with stdout "42": the
    // run returns Ok("42") and the third candidate is never tried.
    let direct = vec![
        DirectOutcome::NotStarted,
        DirectOutcome::Completed {
            exit_ok: true,
            stdout: Ok("42".to_string()),
            stderr: String::new(),
        },
        DirectOutcome::Completed {
            exit_ok: true,
            stdout: Ok("never".to_string()),
            stderr: String::new(),
        },
    ];
    let elevated = not_started_elevated(3);
    let (result, tried) = run_blocking(ElevationPolicy::DirectOnly, &direct, &elevated);
    assert_eq!(result, Ok("42".to_string()));
    assert_eq!(tried, 2);
}

#[test]
fn all_candidates_fail_returns_last_stderr() {
    // Every candidate either fails to start or exits non-zero with its own
    // stderr: the error carries the last candidate's stderr.
    let direct = vec![
        DirectOutcome::Completed {
            exit_ok: false,
            stdout: Ok(String::new()),
            stderr: "first error".to_string(),
        },
        DirectOutcome::NotStarted,
        DirectOutcome::Completed {
            exit_ok: false,
            stdout: Ok(String::new()),
            stderr: "third error".to_string(),
        },
    ];
    let elevated = not_started_elevated(3);
    let (result, tried) = run_blocking(ElevationPolicy::DirectOnly, &direct, &elevated);
    assert_eq!(result, Err(RunError::ScriptFailed { stderr: "third error".to_string() }));
    assert_eq!(tried, 3);
}

#[test]
fn no_candidate_starts_reports_no_interpreter() {
    let direct = vec![DirectOutcome::NotStarted, DirectOutcome::NotStarted];
    let elevated = not_started_elevated(2);
    let (result, tried) = run_blocking(ElevationPolicy::DirectOnly, &direct, &elevated);
    assert_eq!(result, Err(RunError::NoInterpreter));
    assert_eq!(tried, 2);
}

#[test]
fn decode_failure_is_terminal() {
    // A successful exit whose stdout cannot be decoded fails the whole run
    // without falling through to later candidates.
    let direct = vec![
        DirectOutcome::Completed {
            exit_ok: true,
            stdout: Err("invalid utf-8".to_string()),
            stderr: String::new(),
        },
        DirectOutcome::Completed {
            exit_ok: true,
            stdout: Ok("unreached".to_string()),
            stderr: String::new(),
        },
    ];
    let elevated = not_started_elevated(2);
    let (result, tried) = run_blocking(ElevationPolicy::DirectOnly, &direct, &elevated);
    assert_eq!(result, Err(RunError::OutputDecode { detail: "invalid utf-8".to_string() }));
    assert_eq!(tried, 1);
}

#[test]
fn elevated_fallback_output_wins() {
    // Under the elevating policy a candidate that cannot start directly is
    // retried elevated; a successful elevated run decides the run.
    let direct = vec![DirectOutcome::NotStarted, DirectOutcome::NotStarted];
    let elevated = vec![
        ElevatedOutcome::NotStarted,
        ElevatedOutcome::Completed { exit_ok: true, stdout: Ok("elevated out".to_string()) },
    ];
    let (result, tried) = run_blocking(ElevationPolicy::RequiresElevation, &direct, &elevated);
    assert_eq!(result, Ok("elevated out".to_string()));
    assert_eq!(tried, 2);
}

#[test]
fn elevated_failure_is_swallowed() {
    // An elevated attempt that fails leaves the last error untouched: a
    // preceding candidate's stderr still decides the aggregate error.
    let direct = vec![
        DirectOutcome::Completed {
            exit_ok: false,
            stdout: Ok(String::new()),
            stderr: "real failure".to_string(),
        },
        DirectOutcome::NotStarted,
    ];
    let elevated = vec![
        ElevatedOutcome::NotStarted,
        ElevatedOutcome::Completed { exit_ok: false, stdout: Ok(String::new()) },
    ];
    let (result, _tried) = run_blocking(ElevationPolicy::RequiresElevation, &direct, &elevated);
    assert_eq!(result, Err(RunError::ScriptFailed { stderr: "real failure".to_string() }));
}

#[test]
fn machine_steps_match_driver() {
    let mut m = BlockingRun::new(2, ElevationPolicy::DirectOnly);
    match m.next_action() {
        BlockingAction::TryDirect { idx } => assert_eq!(idx, 0),
        other => panic!("unexpected action: {:?}", other),
    }
    m.feed_direct(DirectOutcome::NotStarted);
    match m.next_action() {
        BlockingAction::TryDirect { idx } => assert_eq!(idx, 1),
        other => panic!("unexpected action: {:?}", other),
    }
    m.feed_direct(DirectOutcome::Completed {
        exit_ok: true,
        stdout: Ok("done".to_string()),
        stderr: String::new(),
    });
    match m.next_action() {
        BlockingAction::Finished { result } => assert_eq!(result, Ok("done".to_string())),
        other => panic!("unexpected action: {:?}", other),
    }
}
