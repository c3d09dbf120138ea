use gitpod::installer::{
    render_kubernetes_manifests, validate_certificates, validate_config, validate_database, validate_domain,
    validate_storage, validate_workspace, CertificateConfig, DatabaseConfig, GitpodConfig, StorageConfig,
    WorkspaceConfig,
};
use gitpod::logging::{parse_log_level, LogLevel};

fn s(v: &str) -> String {
    v.to_string()
}

fn config(
    domain: &str,
    cert_kind: &str,
    cert_name: Option<&str>,
    in_cluster: bool,
    external_url: Option<&str>,
    storage_kind: &str,
    region: Option<&str>,
    bucket: Option<&str>,
    runtime: &str,
    socket: &str,
) -> GitpodConfig {
    GitpodConfig {
        domain: s(domain),
        certificate: CertificateConfig { kind: s(cert_kind), name: cert_name.map(s) },
        database: DatabaseConfig { in_cluster, external_url: external_url.map(s) },
        storage: StorageConfig { kind: s(storage_kind), region: region.map(s), bucket: bucket.map(s) },
        workspace: WorkspaceConfig { runtime: s(runtime), containerd_socket: s(socket) },
    }
}

#[test]
fn test_config_initialization() {
    let config = GitpodConfig::default();
    assert_eq!(config.domain, "gitpod.example.com");
    assert!(config.database.in_cluster);
    assert_eq!(config.certificate.name.as_deref(), Some("https-certificates"));
    assert_eq!(config.workspace.containerd_socket, "/run/containerd/containerd.sock");
}

#[test]
fn test_config_validation_success() {
    let c = config(
        "gitpod.mycompany.com",
        "cert-manager",
        None,
        true,
        None,
        "s3",
        Some("us-west-2"),
        Some("gitpod-storage"),
        "containerd",
        "/run/containerd/containerd.sock",
    );
    let report = validate_config(&c);
    assert!(report.passed());
    assert!(report.warnings.is_empty());
}

#[test]
fn test_config_validation_failure() {
    let c = config("", "invalid-kind", None, false, None, "s3", None, None, "invalid-runtime", "relative/path");
    let report = validate_config(&c);
    assert!(!report.passed());
    assert_eq!(
        report.errors,
        vec![
            s("Domain cannot be empty"),
            s("External database URL must be provided when in_cluster is false"),
            s("Region is required for S3 storage"),
            s("Bucket is required for S3 storage"),
            s("Unsupported workspace runtime: invalid-runtime"),
            s("Unsupported certificate kind: invalid-kind"),
        ]
    );
}

#[test]
fn test_config_rendering() {
    let c = config(
        "gitpod.test.com",
        "secret",
        Some("tls-cert"),
        true,
        None,
        "minio",
        None,
        None,
        "containerd",
        "/run/containerd/containerd.sock",
    );
    let rendered_content = render_kubernetes_manifests(&c);
    assert!(rendered_content.contains("gitpod.test.com"));
    assert!(rendered_content.contains("ConfigMap"));
}

#[test]
fn rendering_is_exact() {
    let c = config("a.b", "secret", Some("n"), false, Some("mysql://x"), "gcs", None, Some("b"), "docker", "");
    let expected = "\napiVersion: v1\nkind: ConfigMap\nmetadata:\n  name: gitpod-config\n  namespace: gitpod\ndata:\n  domain: \"a.b\"\n  database.in_cluster: \"false\"\n  storage.kind: \"gcs\"\n  workspace.runtime: \"docker\"\n";
    assert_eq!(render_kubernetes_manifests(&c), expected);
}

#[test]
fn default_config_warns_only_about_example_domain() {
    let report = validate_config(&GitpodConfig::default());
    assert!(report.passed());
    assert_eq!(report.warnings, vec![s("Using example domain - please configure a real domain")]);
}

#[test]
fn domain_rules() {
    let mut e = Vec::new();
    let mut w = Vec::new();
    validate_domain("https://nodot", &mut e, &mut w);
    assert_eq!(e, vec![s("Domain must be a valid FQDN"), s("Domain should not include protocol (http/https)")]);
    assert!(w.is_empty());
    let mut e = Vec::new();
    validate_domain("http://x.y", &mut e, &mut w);
    assert_eq!(e, vec![s("Domain should not include protocol (http/https)")]);
    let mut e = Vec::new();
    validate_domain("example.org", &mut e, &mut w);
    assert!(e.is_empty());
}

#[test]
fn database_rules() {
    let mut e = Vec::new();
    let mut w = Vec::new();
    validate_database(&DatabaseConfig { in_cluster: true, external_url: Some(s("redis://x")) }, &mut e, &mut w);
    assert_eq!(e, vec![s("Database URL must use postgresql:// or mysql:// scheme")]);
    assert_eq!(w, vec![s("External database URL is ignored when in_cluster is true")]);
    let mut e = Vec::new();
    let mut w = Vec::new();
    validate_database(&DatabaseConfig { in_cluster: false, external_url: Some(s("postgresql://db")) }, &mut e, &mut w);
    assert!(e.is_empty());
    assert!(w.is_empty());
}

#[test]
fn storage_rules() {
    let mut e = Vec::new();
    let mut w = Vec::new();
    validate_storage(&StorageConfig { kind: s("minio"), region: Some(s("r")), bucket: None }, &mut e, &mut w);
    assert!(e.is_empty());
    assert_eq!(w, vec![s("Region is not used with MinIO storage")]);
    validate_storage(&StorageConfig { kind: s("gcs"), region: None, bucket: None }, &mut e, &mut w);
    assert_eq!(e, vec![s("Bucket is required for GCS storage")]);
    validate_storage(&StorageConfig { kind: s("azure"), region: None, bucket: None }, &mut e, &mut w);
    assert_eq!(e[1], "Unsupported storage kind: azure");
}

#[test]
fn workspace_rules() {
    let mut e = Vec::new();
    let mut w = Vec::new();
    validate_workspace(&WorkspaceConfig { runtime: s("docker"), containerd_socket: s("") }, &mut e, &mut w);
    assert!(e.is_empty());
    assert_eq!(w, vec![s("Docker runtime is deprecated, consider using containerd")]);
    validate_workspace(&WorkspaceConfig { runtime: s("containerd"), containerd_socket: s("run/x") }, &mut e, &mut w);
    assert_eq!(e, vec![s("Containerd socket must be an absolute path")]);
}

#[test]
fn certificate_rules() {
    let mut e = Vec::new();
    let mut w = Vec::new();
    validate_certificates(&CertificateConfig { kind: s("secret"), name: None }, &mut e, &mut w);
    assert_eq!(e, vec![s("Certificate name is required for secret kind")]);
    validate_certificates(&CertificateConfig { kind: s("letsencrypt"), name: None }, &mut e, &mut w);
    assert_eq!(w, vec![s("Let's Encrypt certificates have rate limits")]);
    assert_eq!(e.len(), 1);
}

#[test]
fn log_levels() {
    assert_eq!(parse_log_level("info"), Ok(LogLevel::Info));
    assert_eq!(parse_log_level("TRACE"), Ok(LogLevel::Trace));
    assert_eq!(parse_log_level("Warn"), Ok(LogLevel::Warn));
    assert_eq!(parse_log_level("debug"), Ok(LogLevel::Debug));
    assert_eq!(parse_log_level("ERROR"), Ok(LogLevel::Error));
    assert_eq!(parse_log_level("loud"), Err(s("Invalid log level: loud")));
}
