use quantum_launcher::launcher::{ConfigError, LauncherConfig};
use quantum_launcher::tasks::{
    event_for, peer_presence_allowed, scheduled_tasks, CleanupDir, CompletionEvent, Orchestrator,
    StartupPlanInputs, TaskKind, TaskOutcome,
};

fn inputs(
    auto_update_enabled: bool,
    config: Result<LauncherConfig, ConfigError>,
    instance_selected: bool,
) -> StartupPlanInputs {
    StartupPlanInputs { auto_update_enabled, config, instance_selected }
}

fn ok_config(rich_presence: Option<bool>) -> Result<LauncherConfig, ConfigError> {
    Ok(LauncherConfig { rich_presence })
}

#[test]
fn full_registry_in_order() {
    let ts = scheduled_tasks(&inputs(true, ok_config(Some(true)), true));
    assert_eq!(
        ts,
        vec![
            TaskKind::UpdateCheck,
            TaskKind::PeerPresence,
            TaskKind::EntryListLoad { refresh: false },
            TaskKind::Cleanup(CleanupDir::Logs),
            TaskKind::Cleanup(CleanupDir::DownloadsCache),
            TaskKind::CustomStateLoad,
            TaskKind::NotesReload,
        ]
    );
}

#[test]
fn minimal_registry_keeps_unconditional_tasks() {
    let ts = scheduled_tasks(&inputs(false, ok_config(Some(false)), false));
    assert_eq!(
        ts,
        vec![
            TaskKind::EntryListLoad { refresh: false },
            TaskKind::Cleanup(CleanupDir::Logs),
            TaskKind::Cleanup(CleanupDir::DownloadsCache),
            TaskKind::CustomStateLoad,
        ]
    );
}

#[test]
fn config_failure_default_allows_peer_presence() {
    assert!(peer_presence_allowed(&inputs(false, Err(ConfigError::DirNotFound), false)));
    let ts = scheduled_tasks(&inputs(false, Err(ConfigError::Json("truncated".to_string())), false));
    assert!(ts.contains(&TaskKind::PeerPresence));
}

#[test]
fn unset_rich_presence_default_allows_peer_presence() {
    assert!(peer_presence_allowed(&inputs(false, ok_config(None), false)));
    assert!(!peer_presence_allowed(&inputs(false, ok_config(Some(false)), false)));
}

#[test]
fn disabled_update_check_is_never_scheduled() {
    let ts = scheduled_tasks(&inputs(false, ok_config(Some(true)), false));
    assert!(!ts.contains(&TaskKind::UpdateCheck));
    assert!(!ts.contains(&TaskKind::NotesReload));
}

#[test]
fn events_map_each_task_to_its_variant() {
    let ok = TaskOutcome::Success(1);
    assert_eq!(
        event_for(TaskKind::UpdateCheck, ok.clone()),
        CompletionEvent::UpdateCheckResult(ok.clone())
    );
    assert_eq!(
        event_for(TaskKind::PeerPresence, ok.clone()),
        CompletionEvent::PeerPresenceClientReady(ok.clone())
    );
    assert_eq!(
        event_for(TaskKind::EntryListLoad { refresh: false }, ok.clone()),
        CompletionEvent::EntryListLoaded(ok.clone())
    );
    assert_eq!(
        event_for(TaskKind::Cleanup(CleanupDir::Logs), ok.clone()),
        CompletionEvent::CleanComplete(ok.clone())
    );
    assert_eq!(
        event_for(TaskKind::Cleanup(CleanupDir::DownloadsCache), ok.clone()),
        CompletionEvent::CleanComplete(ok.clone())
    );
    assert_eq!(
        event_for(TaskKind::CustomStateLoad, ok.clone()),
        CompletionEvent::CustomStateLoaded(ok.clone())
    );
    assert_eq!(
        event_for(TaskKind::NotesReload, ok.clone()),
        CompletionEvent::NotesReloaded(ok)
    );
}

#[test]
fn one_event_per_scheduled_task() {
    let mut o = Orchestrator::start_all(&inputs(true, ok_config(None), true));
    let n = o.task_count();
    assert_eq!(n, 7);
    assert!(o.events.is_empty());
    assert!(!o.all_done());
    for i in 0..n {
        assert!(!o.is_completed(i));
        o.complete(i, TaskOutcome::Success(i as u64));
        assert!(o.is_completed(i));
    }
    assert!(o.all_done());
    assert_eq!(o.events.len(), n);
}

#[test]
fn cleanup_failures_are_delivered_independently() {
    let mut o = Orchestrator::start_all(&inputs(false, ok_config(Some(false)), false));
    let logs = o.tasks.iter().position(|t| *t == TaskKind::Cleanup(CleanupDir::Logs)).unwrap();
    let cache =
        o.tasks.iter().position(|t| *t == TaskKind::Cleanup(CleanupDir::DownloadsCache)).unwrap();
    o.complete(logs, TaskOutcome::Failure("permission denied: logs".to_string()));
    o.complete(cache, TaskOutcome::Failure("permission denied: downloads/cache".to_string()));
    assert_eq!(
        o.events,
        vec![
            CompletionEvent::CleanComplete(TaskOutcome::Failure(
                "permission denied: logs".to_string()
            )),
            CompletionEvent::CleanComplete(TaskOutcome::Failure(
                "permission denied: downloads/cache".to_string()
            )),
        ]
    );
    // The failures affect nothing else: the remaining tasks still deliver.
    let entry = o.tasks.iter().position(|t| *t == TaskKind::EntryListLoad { refresh: false }).unwrap();
    o.complete(entry, TaskOutcome::Success(3));
    assert_eq!(
        o.events[2],
        CompletionEvent::EntryListLoaded(TaskOutcome::Success(3))
    );
    let state = o.tasks.iter().position(|t| *t == TaskKind::CustomStateLoad).unwrap();
    o.complete(state, TaskOutcome::Success(4));
    assert!(o.all_done());
    assert_eq!(o.events.len(), 4);
}

#[test]
fn completion_order_is_free() {
    let mut o = Orchestrator::start_all(&inputs(false, ok_config(Some(false)), false));
    // The two cleanup instances may complete in either order; each event
    // carries the result of the task that produced it.
    let cache =
        o.tasks.iter().position(|t| *t == TaskKind::Cleanup(CleanupDir::DownloadsCache)).unwrap();
    let logs = o.tasks.iter().position(|t| *t == TaskKind::Cleanup(CleanupDir::Logs)).unwrap();
    o.complete(cache, TaskOutcome::Success(10));
    o.complete(logs, TaskOutcome::Success(20));
    assert_eq!(o.events[0], CompletionEvent::CleanComplete(TaskOutcome::Success(10)));
    assert_eq!(o.events[1], CompletionEvent::CleanComplete(TaskOutcome::Success(20)));
}
