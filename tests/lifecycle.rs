use gitpod::manager::{LifecycleError, WorkspaceManager, PROVISION_DELAY_MS, SHUTDOWN_DELAY_MS};
use gitpod::scheduler::{fire, ScheduledTransition, Scheduler};
use gitpod::status::WorkspaceStatus;
use gitpod::store::{StoreError, WorkspaceStore};
use gitpod::workspace::{workspace_url, Workspace};

const T0: i64 = 1_700_000_000_000;

fn expected_url(id: u128) -> String {
    format!("https://{}.gitpod.example.com", uuid::Uuid::from_u128(id))
}

fn record(id: u128, owner: u128, name: &str, created_at: i64) -> Workspace {
    Workspace::new(id, owner, name.to_string(), None, None, created_at)
}

#[test]
fn test_workspace_manager() {
    let mut wm = WorkspaceManager::new();
    let user_id = gitpod::ids::generate_id();
    let workspace = wm.create_workspace(user_id, "test-workspace".to_string(), None, None).unwrap();
    assert_eq!(workspace.name, "test-workspace");
    assert_eq!(workspace.user_id, user_id);
    assert!(matches!(workspace.status, WorkspaceStatus::Creating));

    let retrieved_workspace = wm.get_workspace(workspace.id).unwrap();
    assert_eq!(retrieved_workspace.id, workspace.id);

    let workspaces = wm.list_workspaces(Some(user_id));
    assert_eq!(workspaces.len(), 1);
    assert_eq!(workspaces[0].id, workspace.id);
}

#[test]
fn test_workspace_status_transition() {
    let mut wm = WorkspaceManager::new();
    let user_id = 42u128;
    let workspace = wm.create_workspace_at(7, user_id, "status-test".to_string(), None, None, T0).unwrap();
    wm.run_due_transitions(T0 + 6000);
    let updated_workspace = wm.get_workspace(workspace.id).unwrap();
    assert!(matches!(updated_workspace.status, WorkspaceStatus::Running));
}

#[test]
fn create_then_provisioned() {
    let mut wm = WorkspaceManager::new();
    let id = 0x1234_5678_9abc_def0_1122_3344_5566_7788u128;
    let w = wm.create_workspace_at(id, 1, "dev".to_string(), None, None, T0).unwrap();
    assert_eq!(w.status, WorkspaceStatus::Creating);
    assert_eq!(w.url, None);
    assert_eq!(w.created_at, T0);
    assert_eq!(w.updated_at, T0);
    // one millisecond early, nothing fires
    assert_eq!(wm.run_due_transitions(T0 + PROVISION_DELAY_MS as i64 - 1), 0);
    assert_eq!(wm.get_workspace(id).unwrap().status, WorkspaceStatus::Creating);
    assert_eq!(wm.run_due_transitions(T0 + PROVISION_DELAY_MS as i64), 1);
    let w = wm.get_workspace(id).unwrap();
    assert_eq!(w.status, WorkspaceStatus::Running);
    assert_eq!(w.url, Some("https://12345678-9abc-def0-1122-334455667788.gitpod.example.com".to_string()));
    assert_eq!(w.updated_at, T0 + PROVISION_DELAY_MS as i64);
    assert_eq!(w.revision, 1);
}

#[test]
fn empty_name_is_rejected() {
    let mut wm = WorkspaceManager::new();
    let r = wm.create_workspace_at(9, 1, String::new(), None, None, T0);
    assert_eq!(r.unwrap_err(), LifecycleError::Validation);
    assert!(wm.list_workspaces(Some(1)).is_empty());
    assert!(wm.list_workspaces(None).is_empty());
    assert_eq!(wm.run_due_transitions(T0 + 10_000), 0);
    let r = wm.create_workspace(1, String::new(), None, None);
    assert_eq!(r.unwrap_err(), LifecycleError::Validation);
}

#[test]
fn unknown_id_is_not_found() {
    let mut wm = WorkspaceManager::new();
    assert_eq!(wm.get_workspace(99).unwrap_err(), LifecycleError::NotFound);
    assert_eq!(wm.start_workspace_at(99, T0).unwrap_err(), LifecycleError::NotFound);
    assert_eq!(wm.stop_workspace_at(99, T0).unwrap_err(), LifecycleError::NotFound);
    assert_eq!(wm.delete_workspace(99).unwrap_err(), LifecycleError::NotFound);
}

#[test]
fn stop_while_creating_changes_nothing() {
    let mut wm = WorkspaceManager::new();
    let w = wm.create_workspace_at(5, 1, "dev".to_string(), None, None, T0).unwrap();
    let s = wm.stop_workspace_at(5, T0 + 10).unwrap();
    assert_eq!(s.status, WorkspaceStatus::Creating);
    assert_eq!(s.url, None);
    assert_eq!(s.updated_at, w.updated_at);
    assert_eq!(s.revision, 0);
}

#[test]
fn stop_twice_is_idempotent() {
    let mut wm = WorkspaceManager::new();
    wm.create_workspace_at(5, 1, "dev".to_string(), None, None, T0).unwrap();
    wm.run_due_transitions(T0 + 5000);
    let first = wm.stop_workspace_at(5, T0 + 6000).unwrap();
    assert_eq!(first.status, WorkspaceStatus::Stopping);
    assert_eq!(first.url, None);
    let second = wm.stop_workspace_at(5, T0 + 6001).unwrap();
    assert_eq!(second.status, WorkspaceStatus::Stopping);
    assert_eq!(second.revision, first.revision);
    assert_eq!(second.updated_at, first.updated_at);
    // only one shutdown was scheduled
    assert_eq!(wm.run_due_transitions(T0 + 6000 + SHUTDOWN_DELAY_MS as i64), 1);
    let done = wm.get_workspace(5).unwrap();
    assert_eq!(done.status, WorkspaceStatus::Stopped);
    assert_eq!(done.url, None);
}

#[test]
fn delete_before_provisioned_stays_deleted() {
    let mut wm = WorkspaceManager::new();
    wm.create_workspace_at(5, 1, "dev".to_string(), None, None, T0).unwrap();
    wm.delete_workspace(5).unwrap();
    assert_eq!(wm.run_due_transitions(T0 + 60_000), 0);
    assert_eq!(wm.get_workspace(5).unwrap_err(), LifecycleError::NotFound);
    assert!(wm.list_workspaces(None).is_empty());
}

#[test]
fn start_after_stop_reprovisions() {
    let mut wm = WorkspaceManager::new();
    wm.create_workspace_at(5, 1, "dev".to_string(), None, None, T0).unwrap();
    wm.run_due_transitions(T0 + 5000);
    let running = wm.start_workspace_at(5, T0 + 5001).unwrap();
    assert_eq!(running.status, WorkspaceStatus::Running);
    assert_eq!(running.revision, 1);
    wm.stop_workspace_at(5, T0 + 6000).unwrap();
    wm.run_due_transitions(T0 + 7000);
    let again = wm.start_workspace_at(5, T0 + 8000).unwrap();
    assert_eq!(again.status, WorkspaceStatus::Creating);
    assert_eq!(again.url, None);
    wm.run_due_transitions(T0 + 13_000);
    let w = wm.get_workspace(5).unwrap();
    assert_eq!(w.status, WorkspaceStatus::Running);
    assert_eq!(w.url, Some(expected_url(5)));
}

#[test]
fn duplicate_identifier_is_a_resource_fault() {
    let mut wm = WorkspaceManager::new();
    wm.create_workspace_at(5, 1, "dev".to_string(), None, None, T0).unwrap();
    let r = wm.create_workspace_at(5, 2, "other".to_string(), None, None, T0);
    assert_eq!(r.unwrap_err(), LifecycleError::ResourceFault);
    assert_eq!(wm.list_workspaces(None).len(), 1);
    assert_eq!(wm.get_workspace(5).unwrap().user_id, 1);
}

#[test]
fn url_present_exactly_while_running() {
    let mut wm = WorkspaceManager::new();
    wm.create_workspace_at(5, 1, "dev".to_string(), None, None, T0).unwrap();
    let check = |wm: &WorkspaceManager| {
        for w in wm.list_workspaces(None) {
            assert_eq!(w.url.is_some(), w.status == WorkspaceStatus::Running);
        }
    };
    check(&wm);
    wm.run_due_transitions(T0 + 5000);
    check(&wm);
    wm.stop_workspace_at(5, T0 + 5500).unwrap();
    check(&wm);
    wm.run_due_transitions(T0 + 6000);
    check(&wm);
}

#[test]
fn listing_orders() {
    let mut store = WorkspaceStore::new();
    store.put(record(1, 10, "a", 100));
    store.put(record(2, 20, "b", 300));
    store.put(record(3, 10, "c", 200));
    store.put(record(4, 10, "d", 300));
    let all: Vec<u128> = store.list(None).iter().map(|w| w.id).collect();
    assert_eq!(all, vec![4, 2, 3, 1]);
    let mine: Vec<u128> = store.list(Some(10)).iter().map(|w| w.id).collect();
    assert_eq!(mine, vec![1, 3, 4]);
    assert!(store.list(Some(30)).is_empty());
}

#[test]
fn put_replaces_in_place() {
    let mut store = WorkspaceStore::new();
    store.put(record(1, 10, "a", 100));
    store.put(record(2, 10, "b", 200));
    store.put(record(1, 10, "renamed", 100));
    assert_eq!(store.len(), 2);
    assert_eq!(store.get(1).unwrap().name, "renamed");
    let mine: Vec<u128> = store.list(Some(10)).iter().map(|w| w.id).collect();
    assert_eq!(mine, vec![1, 2]);
}

#[test]
fn mutations_are_all_counted() {
    let mut store = WorkspaceStore::new();
    store.put(record(1, 10, "a", 100));
    let targets = [WorkspaceStatus::Running, WorkspaceStatus::Stopping, WorkspaceStatus::Stopped, WorkspaceStatus::Creating, WorkspaceStatus::Failed];
    for (k, t) in targets.iter().enumerate() {
        let w = store.mutate(1, *t, 100 + k as i64).unwrap();
        assert_eq!(w.revision, k as u64 + 1);
    }
    let w = store.get(1).unwrap();
    assert_eq!(w.revision, 5);
    assert_eq!(w.status, WorkspaceStatus::Failed);
    assert_eq!(w.url, None);
    assert_eq!(store.mutate(2, WorkspaceStatus::Running, 0).unwrap_err(), StoreError::NotFound);
}

#[test]
fn mutation_never_moves_time_backwards() {
    let mut store = WorkspaceStore::new();
    store.put(record(1, 10, "a", 100));
    let w = store.mutate(1, WorkspaceStatus::Running, 50).unwrap();
    assert_eq!(w.updated_at, 100);
    assert_eq!(w.url, Some(workspace_url(1)));
    assert_eq!(workspace_url(1), expected_url(1));
}

#[test]
fn exhausted_revision_is_refused() {
    let mut store = WorkspaceStore::new();
    let mut w = record(1, 10, "a", 100);
    w.revision = u64::MAX;
    store.put(w);
    assert_eq!(store.mutate(1, WorkspaceStatus::Running, 200).unwrap_err(), StoreError::Exhausted);
    assert_eq!(store.get(1).unwrap().status, WorkspaceStatus::Creating);
}

#[test]
fn remove_deletes_once() {
    let mut store = WorkspaceStore::new();
    store.put(record(1, 10, "a", 100));
    store.put(record(2, 10, "b", 100));
    assert_eq!(store.remove(1), Ok(()));
    assert_eq!(store.remove(1), Err(StoreError::NotFound));
    assert!(store.get(1).is_none());
    assert_eq!(store.get(2).unwrap().name, "b");
}

#[test]
fn scheduler_takes_only_due_jobs() {
    let mut s = Scheduler::new();
    s.schedule(1, 500, WorkspaceStatus::Stopped, 1000);
    s.schedule(2, 100, WorkspaceStatus::Running, 1000);
    s.schedule(3, 900, WorkspaceStatus::Running, 1000);
    let due = s.take_due(1500);
    assert_eq!(
        due,
        vec![
            ScheduledTransition { workspace_id: 1, due_at: 1500, target: WorkspaceStatus::Stopped },
            ScheduledTransition { workspace_id: 2, due_at: 1100, target: WorkspaceStatus::Running },
        ]
    );
    assert_eq!(s.len(), 1);
    s.schedule(4, 10, WorkspaceStatus::Running, i64::MAX - 5);
    let due = s.take_due(i64::MAX);
    assert_eq!(due.len(), 2);
    assert_eq!(due[1].due_at, i64::MAX);
}

#[test]
fn firing_on_missing_record_is_dropped() {
    let mut store = WorkspaceStore::new();
    let job = ScheduledTransition { workspace_id: 1, due_at: 0, target: WorkspaceStatus::Running };
    assert!(fire(&mut store, job, 10).is_none());
    assert_eq!(store.len(), 0);
}
