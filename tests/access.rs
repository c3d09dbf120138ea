use gitpod::auth::{authenticate, bearer_token, validate_token};
use gitpod::install::{check_prerequisites, installation_plan, InstallStep, PrerequisiteError};
use gitpod::installer::GitpodConfig;

#[test]
fn bearer_token_is_taken_after_prefix() {
    assert_eq!(bearer_token("Bearer abc"), Some("abc"));
    assert_eq!(bearer_token("Bearer "), Some(""));
    assert_eq!(bearer_token("Basic abc"), None);
    assert_eq!(bearer_token("bearer abc"), None);
}

#[test]
fn only_the_accepted_token_authenticates() {
    let u = validate_token("valid-token", 77).unwrap();
    assert_eq!(u.id, 77);
    assert_eq!(u.email, "user@example.com");
    assert_eq!(u.name, "Test User");
    assert!(validate_token("other", 77).is_none());
    assert_eq!(authenticate(Some("Bearer valid-token"), 5).unwrap().id, 5);
    assert!(authenticate(Some("valid-token"), 5).is_none());
    assert!(authenticate(None, 5).is_none());
}

#[test]
fn prerequisites() {
    let mut c = GitpodConfig::default();
    assert_eq!(check_prerequisites(false, &c), Err(PrerequisiteError::ClusterUnreachable));
    assert_eq!(check_prerequisites(true, &c), Ok(()));
    c.domain = String::new();
    assert_eq!(check_prerequisites(true, &c), Err(PrerequisiteError::MissingDomain));
}

#[test]
fn plan_follows_database_placement() {
    let mut c = GitpodConfig::default();
    let plan = installation_plan(&c);
    assert_eq!(plan.len(), 7);
    assert_eq!(plan[0], InstallStep::InstallDatabase);
    assert_eq!(plan[6], InstallStep::ConfigureCertificates);
    c.database.in_cluster = false;
    assert_eq!(installation_plan(&c)[0], InstallStep::ConfigureExternalDatabase);
}
