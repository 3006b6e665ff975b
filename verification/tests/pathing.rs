use keymon_supervisor::fs_model::{clear_processed_log, FsModel};
use keymon_supervisor::launcher::{DirectOutcome, ElevatedOutcome, ElevationPolicy};
use keymon_supervisor::paths::{
    clear_log_plan, join_path, monitor_script_path, monitor_script_rel, parent_of,
    workspace_root_of,
};
use keymon_supervisor::resolver::{
    interpreter_candidates, monitor_exe_name, monitor_script_file,
};
use keymon_supervisor::runner::{run_script_with, OneShotError, RunScriptOutcome};
use keymon_supervisor::text::contains_str;

fn segs(parts: &[&str]) -> Vec<String> {
    parts.iter().map(|p| p.to_string()).collect()
}

#[test]
fn candidates_are_fixed_and_ordered() {
    assert_eq!(interpreter_candidates(), segs(&["python", "python3", "py"]));
    assert_eq!(monitor_exe_name(), "python.exe");
    assert_eq!(monitor_script_file(), "keyboard_monitor.py");
}

#[test]
fn parent_of_drops_last_segment() {
    assert_eq!(parent_of(&segs(&["home", "user", "app"])), Some(segs(&["home", "user"])));
    assert_eq!(parent_of(&Vec::new()), None);
}

#[test]
fn workspace_root_falls_back_to_cwd() {
    assert_eq!(workspace_root_of(&segs(&["only"])), Vec::<String>::new());
    assert_eq!(workspace_root_of(&Vec::new()), Vec::<String>::new());
    assert_eq!(workspace_root_of(&segs(&["a", "b"])), segs(&["a"]));
}

#[test]
fn reported_root_joined_with_known_rel_is_launcher_path() {
    // The workspace root handed to the caller, joined with the monitor
    // script's known relative location, is exactly the path the launcher
    // builds internally.
    let cwd = segs(&["home", "user", "project", "shell"]);
    let reported = workspace_root_of(&cwd);
    let joined = join_path(&reported, &monitor_script_rel());
    assert_eq!(monitor_script_path(&cwd), Some(joined));
}

#[test]
fn monitor_script_path_needs_a_parent() {
    assert_eq!(monitor_script_path(&Vec::new()), None);
    assert_eq!(
        monitor_script_path(&segs(&["root", "shell"])),
        Some(segs(&["root", "python", "scripts", "keyboard_monitor.py"]))
    );
}

#[test]
fn clear_log_plan_places_dir_and_file() {
    let (dir, file) = clear_log_plan(&segs(&["root"]));
    assert_eq!(dir, segs(&["root", "logs"]));
    assert_eq!(file, segs(&["root", "logs", "processed_numbers.txt"]));
}

#[test]
fn clear_log_creates_dir_and_empty_file() {
    // With no pre-existing logs directory, clearing creates the directory
    // and an empty log file.
    let mut fs = FsModel::new();
    let root = segs(&["root"]);
    let log = segs(&["root", "logs", "processed_numbers.txt"]);
    assert_eq!(fs.read_file(&log), None);
    clear_processed_log(&mut fs, &root);
    assert!(fs.dirs.contains(&segs(&["root", "logs"])));
    assert_eq!(fs.read_file(&log), Some(String::new()));
}

#[test]
fn clear_log_truncates_prior_content() {
    let mut fs = FsModel::new();
    let root = segs(&["root"]);
    let log = segs(&["root", "logs", "processed_numbers.txt"]);
    clear_processed_log(&mut fs, &root);
    fs.write_file(&log, &"17 23 42".to_string());
    assert_eq!(fs.read_file(&log), Some("17 23 42".to_string()));
    let other = segs(&["root", "logs", "other.txt"]);
    fs.write_file(&other, &"keep".to_string());
    clear_processed_log(&mut fs, &root);
    assert_eq!(fs.read_file(&log), Some(String::new()));
    assert_eq!(fs.read_file(&other), Some("keep".to_string()));
}

#[test]
fn run_script_without_root_tries_nothing() {
    let outcome: RunScriptOutcome = run_script_with(
        &Vec::new(),
        &"report.py".to_string(),
        ElevationPolicy::DirectOnly,
        &vec![DirectOutcome::NotStarted],
        &vec![ElevatedOutcome::NotStarted],
    );
    assert_eq!(outcome.result, Err(OneShotError::NoWorkspaceRoot));
    assert_eq!(outcome.tried, 0);
    assert_eq!(outcome.script_path, None);
}

#[test]
fn run_script_resolves_path_and_output() {
    let direct = vec![DirectOutcome::Completed {
        exit_ok: true,
        stdout: Ok("payload".to_string()),
        stderr: String::new(),
    }];
    let elevated = vec![ElevatedOutcome::NotStarted];
    let outcome = run_script_with(
        &segs(&["root", "shell"]),
        &"report.py".to_string(),
        ElevationPolicy::DirectOnly,
        &direct,
        &elevated,
    );
    assert_eq!(outcome.result, Ok("payload".to_string()));
    assert_eq!(outcome.tried, 1);
    assert_eq!(
        outcome.script_path,
        Some(segs(&["root", "python", "scripts", "report.py"]))
    );
}

#[test]
fn run_script_surfaces_launch_failure() {
    let direct = vec![DirectOutcome::Completed {
        exit_ok: false,
        stdout: Ok(String::new()),
        stderr: "boom".to_string(),
    }];
    let elevated = vec![ElevatedOutcome::NotStarted];
    let outcome = run_script_with(
        &segs(&["root", "shell"]),
        &"report.py".to_string(),
        ElevationPolicy::DirectOnly,
        &direct,
        &elevated,
    );
    assert_eq!(
        outcome.result,
        Err(OneShotError::Launch {
            error: keymon_supervisor::launcher::RunError::ScriptFailed {
                stderr: "boom".to_string()
            }
        })
    );
}

#[test]
fn substring_search_finds_script_names() {
    assert!(contains_str("C:\\work\\keyboard_monitor.py", "keyboard_monitor.py"));
    assert!(contains_str("keyboard_monitor.py", "keyboard_monitor.py"));
    assert!(!contains_str("keyboard_monito", "keyboard_monitor.py"));
    assert!(!contains_str("", "x"));
    assert!(contains_str("anything", ""));
}
