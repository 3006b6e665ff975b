use keymon_supervisor::host::{orphan_pids, HostProcessRecord};
use keymon_supervisor::launcher::ElevationPolicy;
use keymon_supervisor::monitor::{run_start, MonitorLaunch, SpawnOutcome, StartAction, StartError};
use keymon_supervisor::supervisor::{
    start_monitor_with, stop_monitor_with, StartStep, Supervisor,
};

fn fake_table() -> Vec<HostProcessRecord> {
    vec![
        HostProcessRecord {
            pid: 11,
            name: "python.exe".to_string(),
            cmd: vec!["python.exe".to_string(), "C:\\work\\keyboard_monitor.py".to_string()],
        },
        HostProcessRecord {
            pid: 12,
            name: "python.exe".to_string(),
            cmd: vec!["python.exe".to_string(), "other_script.py".to_string()],
        },
        HostProcessRecord {
            pid: 13,
            name: "editor.exe".to_string(),
            cmd: vec!["editor.exe".to_string(), "keyboard_monitor.py".to_string()],
        },
    ]
}

#[test]
fn orphan_detection_matches_exe_and_script() {
    let pids = orphan_pids(
        &fake_table(),
        &"python.exe".to_string(),
        &"keyboard_monitor.py".to_string(),
    );
    assert_eq!(pids, vec![11]);
}

#[test]
fn start_kills_orphan_before_spawning() {
    // A fresh start against a table holding one orphan kills exactly that
    // entry, then spawns.
    let mut sup = Supervisor::new();
    let outcomes = vec![SpawnOutcome::Spawned { handle: 7 }];
    let (result, report) = start_monitor_with(
        &mut sup,
        &fake_table(),
        &"python.exe".to_string(),
        &"keyboard_monitor.py".to_string(),
        ElevationPolicy::RequiresElevation,
        &outcomes,
    );
    assert!(result.is_ok());
    assert_eq!(report.kills, vec![11]);
    assert_eq!(report.spawn_attempts, 1);
    // The orphan kill is issued before the spawn.
    assert_eq!(
        report.steps,
        vec![StartStep::KillOrphan { pid: 11 }, StartStep::SpawnAttempt { idx: 0 }]
    );
    assert!(sup.is_running());
}

#[test]
fn second_start_spawns_nothing() {
    // Idempotence: a second start without an intervening stop performs no
    // spawn attempt and no kill.
    let mut sup = Supervisor::new();
    let outcomes = vec![SpawnOutcome::Spawned { handle: 7 }];
    let table = fake_table();
    let exe = "python.exe".to_string();
    let script = "keyboard_monitor.py".to_string();
    let policy = ElevationPolicy::RequiresElevation;
    let (first, report_one) =
        start_monitor_with(&mut sup, &table, &exe, &script, policy, &outcomes);
    assert!(first.is_ok());
    assert_eq!(report_one.spawn_attempts, 1);
    let (second, report_two) =
        start_monitor_with(&mut sup, &table, &exe, &script, policy, &outcomes);
    assert!(second.is_ok());
    assert_eq!(report_two.spawn_attempts, 0);
    assert!(report_two.kills.is_empty());
    assert!(sup.is_running());
}

#[test]
fn failed_start_leaves_supervisor_idle() {
    let mut sup = Supervisor::new();
    let outcomes = vec![
        SpawnOutcome::Failed { error: "no such file".to_string() },
        SpawnOutcome::Failed { error: "permission denied".to_string() },
    ];
    let (result, report) = start_monitor_with(
        &mut sup,
        &Vec::new(),
        &"python.exe".to_string(),
        &"keyboard_monitor.py".to_string(),
        ElevationPolicy::DirectOnly,
        &outcomes,
    );
    assert_eq!(
        result,
        Err(StartError::SpawnFailed { error: "permission denied".to_string() })
    );
    assert_eq!(report.spawn_attempts, 2);
    assert!(!sup.is_running());
}

#[test]
fn stop_when_idle_kills_nothing() {
    // Stopping an idle supervisor attempts zero kills and succeeds.
    let mut sup = Supervisor::new();
    let (result, kills) = stop_monitor_with(&mut sup, &None);
    assert!(result.is_ok());
    assert_eq!(kills, 0);
    assert!(!sup.is_running());
}

#[test]
fn stop_clears_slot_even_on_kill_error() {
    let mut sup = Supervisor::new();
    sup.commit_start(9);
    let (result, kills) = stop_monitor_with(&mut sup, &Some("kill refused".to_string()));
    assert_eq!(result, Err("kill refused".to_string()));
    assert_eq!(kills, 1);
    assert!(!sup.is_running());
}

#[test]
fn start_stop_cycle_holds_at_most_one_handle() {
    // Over a whole start/stop/start/stop sequence the slot never reports
    // running twice without a stop in between, and each stop drains it.
    let mut sup = Supervisor::new();
    assert!(!sup.is_running());
    let outcomes = vec![SpawnOutcome::Spawned { handle: 1 }];
    let exe = "python.exe".to_string();
    let script = "keyboard_monitor.py".to_string();
    let (r1, _) = start_monitor_with(
        &mut sup,
        &Vec::new(),
        &exe,
        &script,
        ElevationPolicy::DirectOnly,
        &outcomes,
    );
    assert!(r1.is_ok());
    assert!(sup.is_running());
    let (r2, _) = stop_monitor_with(&mut sup, &None);
    assert!(r2.is_ok());
    assert!(!sup.is_running());
    let later = vec![SpawnOutcome::Spawned { handle: 2 }];
    let (r3, report) = start_monitor_with(
        &mut sup,
        &Vec::new(),
        &exe,
        &script,
        ElevationPolicy::DirectOnly,
        &later,
    );
    assert!(r3.is_ok());
    assert_eq!(report.spawn_attempts, 1);
    assert!(sup.is_running());
    let (r4, kills) = stop_monitor_with(&mut sup, &None);
    assert!(r4.is_ok());
    assert_eq!(kills, 1);
    assert!(!sup.is_running());
}

#[test]
fn monitor_launch_first_spawn_wins() {
    let outcomes = vec![
        SpawnOutcome::Failed { error: "missing".to_string() },
        SpawnOutcome::Spawned { handle: 42 },
        SpawnOutcome::Spawned { handle: 43 },
    ];
    let (result, tried) = run_start(ElevationPolicy::RequiresElevation, &outcomes);
    assert_eq!(result, Ok(42));
    assert_eq!(tried, 2);
}

#[test]
fn monitor_launch_action_follows_policy() {
    let elevating = MonitorLaunch::new(3, ElevationPolicy::RequiresElevation);
    match elevating.next_action() {
        StartAction::Spawn { idx, elevated } => {
            assert_eq!(idx, 0);
            assert!(elevated);
        }
        other => panic!("unexpected action: {:?}", other),
    }
    let direct = MonitorLaunch::new(3, ElevationPolicy::DirectOnly);
    match direct.next_action() {
        StartAction::Spawn { elevated, .. } => assert!(!elevated),
        other => panic!("unexpected action: {:?}", other),
    }
}

#[test]
fn monitor_launch_no_interpreter() {
    let outcomes: Vec<SpawnOutcome> = Vec::new();
    let (result, tried) = run_start(ElevationPolicy::DirectOnly, &outcomes);
    assert_eq!(result, Err(StartError::NoInterpreter));
    assert_eq!(tried, 0);
}
