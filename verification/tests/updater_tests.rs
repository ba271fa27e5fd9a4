use cargo_fresh::models::UpdateResult;
use cargo_fresh::summary::partition_update_results;
use cargo_fresh::summary::selection_pool;
use cargo_fresh::summary::version_change_kind;
use cargo_fresh::summary::VersionChangeKind;
use cargo_fresh::models::PackageInfo;
use cargo_fresh::updater::ExecAction;
use cargo_fresh::updater::ExecEvent;
use cargo_fresh::updater::Strategy;
use cargo_fresh::updater::UpdateMachine;

/// Drives the executor with scripted events, returning the action answered
/// by each event.
fn drive(machine: &mut UpdateMachine, events: Vec<ExecEvent>) -> Vec<ExecAction> {
    let mut actions = Vec::new();
    for event in events {
        let action = machine.action().expect("executor finished early");
        actions.push(action);
        machine.on_event(event);
    }
    actions
}

#[test]
fn test_executor_success_with_changed_version() {
    let mut m = UpdateMachine::new("demo".to_string(), Some("1.0.0".to_string()), false);
    let actions = drive(
        &mut m,
        vec![
            ExecEvent::Exited(true),
            ExecEvent::Slept,
            ExecEvent::Probed(Some("1.1.0".to_string())),
        ],
    );
    assert_eq!(
        actions,
        vec![
            ExecAction::Spawn(Strategy::Primary),
            ExecAction::SleepSettle,
            ExecAction::Probe,
        ]
    );
    let result = m.outcome().expect("no outcome");
    assert!(result.success);
    assert_eq!(result.old_version, Some("1.0.0".to_string()));
    assert_eq!(result.new_version, Some("1.1.0".to_string()));
    assert_eq!(m.action(), None);
}

#[test]
fn test_executor_unchanged_version_is_success() {
    let mut m = UpdateMachine::new("demo".to_string(), Some("1.0.0".to_string()), false);
    drive(
        &mut m,
        vec![
            ExecEvent::Exited(true),
            ExecEvent::Slept,
            ExecEvent::Probed(Some("1.0.0".to_string())),
        ],
    );
    let result = m.outcome().expect("no outcome");
    assert!(result.success);
    assert_eq!(result.new_version, result.old_version);
}

#[test]
fn test_executor_three_failed_attempts_with_delays() {
    let mut m = UpdateMachine::new("demo".to_string(), Some("1.0.0".to_string()), false);
    let actions = drive(
        &mut m,
        vec![
            ExecEvent::Exited(false),
            ExecEvent::Slept,
            ExecEvent::Exited(false),
            ExecEvent::Slept,
            ExecEvent::Exited(false),
        ],
    );
    // exactly three attempts, with the two inter-attempt delays in between
    assert_eq!(
        actions,
        vec![
            ExecAction::Spawn(Strategy::Primary),
            ExecAction::SleepRetry,
            ExecAction::Spawn(Strategy::Primary),
            ExecAction::SleepRetry,
            ExecAction::Spawn(Strategy::Primary),
        ]
    );
    let result = m.outcome().expect("no outcome");
    assert!(!result.success);
    assert_eq!(result.new_version, None);
    assert_eq!(result.old_version, Some("1.0.0".to_string()));
    assert_eq!(m.action(), None);
}

#[test]
fn test_executor_falls_back_once_from_fast_path() {
    let mut m = UpdateMachine::new("demo".to_string(), Some("1.0.0".to_string()), true);
    let actions = drive(
        &mut m,
        vec![
            ExecEvent::Exited(false),
            ExecEvent::Exited(true),
            ExecEvent::Slept,
            ExecEvent::Probed(None),
        ],
    );
    // the fallback run happens inside the first attempt, not as a retry
    assert_eq!(
        actions,
        vec![
            ExecAction::Spawn(Strategy::FastPath),
            ExecAction::Spawn(Strategy::Primary),
            ExecAction::SleepSettle,
            ExecAction::Probe,
        ]
    );
    // an unverifiable fallback success ends the run optimistically
    let result = m.outcome().expect("no outcome");
    assert!(result.success);
    assert_eq!(result.new_version, None);
}

#[test]
fn test_executor_fast_path_failure_retries_with_fast_path() {
    let mut m = UpdateMachine::new("demo".to_string(), None, true);
    let actions = drive(
        &mut m,
        vec![
            ExecEvent::Exited(false),
            ExecEvent::Exited(false),
            ExecEvent::Slept,
        ],
    );
    assert_eq!(
        actions,
        vec![
            ExecAction::Spawn(Strategy::FastPath),
            ExecAction::Spawn(Strategy::Primary),
            ExecAction::SleepRetry,
        ]
    );
    // the second attempt goes back to the configured fast path
    assert_eq!(m.action(), Some(ExecAction::Spawn(Strategy::FastPath)));
}

#[test]
fn test_executor_unverifiable_success_retries_then_trusts_exit_code() {
    let mut m = UpdateMachine::new("demo".to_string(), Some("1.0.0".to_string()), false);
    let actions = drive(
        &mut m,
        vec![
            ExecEvent::Exited(true),
            ExecEvent::Slept,
            ExecEvent::Probed(None),
            ExecEvent::Slept,
            ExecEvent::Exited(true),
            ExecEvent::Slept,
            ExecEvent::Probed(None),
            ExecEvent::Slept,
            ExecEvent::Exited(true),
            ExecEvent::Slept,
            ExecEvent::Probed(None),
        ],
    );
    assert_eq!(
        actions,
        vec![
            ExecAction::Spawn(Strategy::Primary),
            ExecAction::SleepSettle,
            ExecAction::Probe,
            ExecAction::SleepRetry,
            ExecAction::Spawn(Strategy::Primary),
            ExecAction::SleepSettle,
            ExecAction::Probe,
            ExecAction::SleepRetry,
            ExecAction::Spawn(Strategy::Primary),
            ExecAction::SleepSettle,
            ExecAction::Probe,
        ]
    );
    // retries exhausted: the zero exit code is trusted over verification
    let result = m.outcome().expect("no outcome");
    assert!(result.success);
    assert_eq!(result.new_version, None);
}

#[test]
fn test_executor_spawn_failure_aborts() {
    let mut m = UpdateMachine::new("demo".to_string(), None, false);
    m.on_event(ExecEvent::SpawnFailed);
    assert!(m.aborted());
    assert_eq!(m.action(), None);
    assert!(m.outcome().is_none());
}

#[test]
fn test_version_change_kind_combinations() {
    let old = Some("1.0.0".to_string());
    let new = Some("1.1.0".to_string());
    assert_eq!(version_change_kind(&old, &new), VersionChangeKind::Changed);
    assert_eq!(
        version_change_kind(&old, &old.clone()),
        VersionChangeKind::Unchanged
    );
    assert_eq!(version_change_kind(&old, &None), VersionChangeKind::OldOnly);
    assert_eq!(version_change_kind(&None, &new), VersionChangeKind::NewOnly);
    assert_eq!(
        version_change_kind(&None, &None),
        VersionChangeKind::Neither
    );
}

#[test]
fn test_partition_update_results_keeps_order() {
    let results = vec![
        UpdateResult::new("a".to_string(), None, None, true),
        UpdateResult::new("b".to_string(), None, None, false),
        UpdateResult::new("c".to_string(), None, None, true),
        UpdateResult::new("d".to_string(), None, None, false),
    ];
    let (succeeded, failed) = partition_update_results(&results);
    let ok_names: Vec<&str> = succeeded.iter().map(|r| r.package_name.as_str()).collect();
    let fail_names: Vec<&str> = failed.iter().map(|r| r.package_name.as_str()).collect();
    assert_eq!(ok_names, vec!["a", "c"]);
    assert_eq!(fail_names, vec!["b", "d"]);
}

#[test]
fn test_selection_pool_orders_stable_before_prerelease() {
    let stable = vec![PackageInfo::new("a".to_string(), Some("1.0".to_string()))];
    let prerelease = vec![PackageInfo::new("b".to_string(), Some("2.0".to_string()))];
    let with_pre = selection_pool(&stable, &prerelease, true);
    let without = selection_pool(&stable, &prerelease, false);
    let with_names: Vec<&str> = with_pre.iter().map(|p| p.name.as_str()).collect();
    let without_names: Vec<&str> = without.iter().map(|p| p.name.as_str()).collect();
    assert_eq!(with_names, vec!["a", "b"]);
    assert_eq!(without_names, vec!["a"]);
}
