//! The one-shot runner: resolves the script's path under the workspace root
//! and delegates to the blocking fallback launcher.

use crate::launcher::{
    spec_blocking, spec_tried, run_blocking, DirectOutcome, ElevatedOutcome, ElevationPolicy,
    RunError,
};
use crate::paths::{one_shot_script_path, seg_views};
use vstd::prelude::*;

verus! {

/// Failure of a one-shot script run.
#[derive(Debug, PartialEq, Eq)]
pub enum OneShotError {
    /// The workspace root could not be resolved; fatal, nothing is tried.
    NoWorkspaceRoot,
    /// The launcher failed after trying every candidate.
    Launch { error: RunError },
}

/// What a one-shot run did.
#[derive(Debug)]
pub struct RunScriptOutcome {
    pub result: Result<String, OneShotError>,
    /// How many candidates were tried.
    pub tried: usize,
    /// The script path every attempt ran, when the root resolved.
    pub script_path: Option<Vec<String>>,
}

/// The one-shot run over an outcome table: entry `i` of each table is what
/// spawning candidate `i` on the resolved script path would produce. A
/// workspace-root failure precedes — and so suppresses — every attempt.
pub fn run_script_with(
    cwd: &Vec<String>,
    name: &String,
    policy: ElevationPolicy,
    direct: &Vec<DirectOutcome>,
    elevated: &Vec<ElevatedOutcome>,
) -> (r: RunScriptOutcome)
    requires
        direct@.len() == elevated@.len(),
    ensures
        cwd@.len() == 0 ==> {
            &&& r.result == Err::<String, OneShotError>(OneShotError::NoWorkspaceRoot)
            &&& r.tried == 0
            &&& r.script_path is None
        },
        cwd@.len() > 0 ==> {
            &&& (match spec_blocking(policy, direct@, elevated@, 0, None) {
                Ok(s) => r.result == Ok::<String, OneShotError>(s),
                Err(e) => r.result == Err::<String, OneShotError>(OneShotError::Launch { error: e }),
            })
            &&& r.tried == spec_tried(policy, direct@, elevated@, 0)
            &&& (r.script_path matches Some(p) && seg_views(p@) == seg_views(cwd@.drop_last())
                + seq!["python"@, "scripts"@, name@])
        },
{
    match one_shot_script_path(cwd, name) {
        None => RunScriptOutcome {
            result: Err(OneShotError::NoWorkspaceRoot),
            tried: 0,
            script_path: None,
        },
        Some(path) => {
            let (outcome, tried) = run_blocking(policy, direct, elevated);
            match outcome {
                Ok(s) => RunScriptOutcome { result: Ok(s), tried, script_path: Some(path) },
                Err(e) => RunScriptOutcome {
                    result: Err(OneShotError::Launch { error: e }),
                    tried,
                    script_path: Some(path),
                },
            }
        },
    }
}

} // verus!
