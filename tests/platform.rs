use gitpod::config::{validate_email, Config};
use gitpod::provisioning::{HealthResponse, MetricsResponse, WorkspaceConfig};
use gitpod::status::WorkspaceStatus;
use gitpod::users::Database;
use gitpod::workspace::Workspace;

#[test]
fn test_config_loading() {
    let config = Config::default();
    assert_eq!(config.server.host, "0.0.0.0");
    assert_eq!(config.server.port, 8080);
    assert_eq!(config.database.max_connections, 10);
    assert_eq!(config.workspace.default_image, "gitpod/workspace-full");
}

#[test]
fn test_database_operations() {
    let mut db = Database::new();
    let user = db.create_user("test@example.com".to_string(), "Test User".to_string()).unwrap();
    assert_eq!(user.email, "test@example.com");
    assert_eq!(user.name, "Test User");

    let retrieved_user = db.get_user(user.id).unwrap();
    assert_eq!(retrieved_user.email, user.email);

    let found_user = db.get_user_by_email("test@example.com").unwrap();
    assert_eq!(found_user.id, user.id);
}

#[test]
fn users_are_found_by_first_match() {
    let mut db = Database::new();
    db.create_user_at(1, "a@x.org".to_string(), "A".to_string(), 10).unwrap();
    db.create_user_at(2, "a@x.org".to_string(), "B".to_string(), 20).unwrap();
    assert!(db.create_user_at(1, "c@x.org".to_string(), "C".to_string(), 30).is_none());
    assert_eq!(db.get_user_by_email("a@x.org").unwrap().id, 1);
    assert!(db.get_user_by_email("b@x.org").is_none());
    assert!(db.get_user(3).is_none());
    assert_eq!(db.get_user(2).unwrap().created_at, 20);
}

#[test]
fn email_check() {
    assert!(validate_email("user@example.com"));
    assert!(!validate_email("user.example.com"));
    assert!(!validate_email("user@example"));
    assert!(!validate_email(""));
}

#[test]
fn workspace_config_defaults() {
    let c = WorkspaceConfig::default();
    assert_eq!(c.image, "gitpod/workspace-full");
    assert_eq!(c.resources.cpu, "2");
    assert_eq!(c.resources.memory, "4Gi");
    assert_eq!(c.resources.storage, "10Gi");
    assert_eq!(c.environment.len(), 1);
    assert_eq!(c.environment[0].name, "GITPOD_WORKSPACE_ID");
    assert_eq!(c.environment[0].value, "");
}

#[test]
fn metrics_count_running() {
    let mut a = Workspace::new(1, 1, "a".to_string(), None, None, 0);
    a.status = WorkspaceStatus::Running;
    let b = Workspace::new(2, 1, "b".to_string(), None, None, 0);
    let mut c = Workspace::new(3, 1, "c".to_string(), None, None, 0);
    c.status = WorkspaceStatus::Running;
    let m = MetricsResponse::from_workspaces(&vec![a, b, c]);
    assert_eq!(m.active_workspaces, 2);
    assert_eq!(m.total_users, 0);
    assert_eq!(m.uptime_seconds, 0);
}

#[test]
fn health_is_healthy() {
    let h = HealthResponse::healthy("0.1.0".to_string(), "now".to_string());
    assert_eq!(h.status, "healthy");
    assert_eq!(h.version, "0.1.0");
}

#[test]
fn services_start_empty() {
    let s = gitpod::services::start_services(Config::default());
    assert_eq!(s.server.port, 8080);
    assert!(s.workspace_manager.list_workspaces(None).is_empty());
    assert!(s.database.get_user(1).is_none());
}

#[test]
fn workspace_log_lines() {
    let lines = gitpod::provisioning::workspace_logs("2025-01-02 03:04:05");
    assert_eq!(
        lines,
        vec![
            "[2025-01-02 03:04:05] Workspace starting".to_string(),
            "[2025-01-02 03:04:05] Installing dependencies".to_string(),
            "[2025-01-02 03:04:05] Workspace ready".to_string(),
        ]
    );
}
