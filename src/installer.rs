//! Installer configuration: its defaults, the rules that check it, and the
//! manifest rendered from it.

use vstd::prelude::*;
use crate::text::{contains_char, has_prefix, joined, starts_with, str_eq};
use crate::workspace::opt_view;

verus! {

/// Where the TLS certificate comes from.
pub struct CertificateConfig {
    pub kind: String,
    pub name: Option<String>,
}

/// Where the database runs.
pub struct DatabaseConfig {
    pub in_cluster: bool,
    pub external_url: Option<String>,
}

/// Which object storage backs workspaces.
pub struct StorageConfig {
    pub kind: String,
    pub region: Option<String>,
    pub bucket: Option<String>,
}

/// Which container runtime workspaces use.
pub struct WorkspaceConfig {
    pub runtime: String,
    pub containerd_socket: String,
}

/// The whole installation.
pub struct GitpodConfig {
    pub domain: String,
    pub certificate: CertificateConfig,
    pub database: DatabaseConfig,
    pub storage: StorageConfig,
    pub workspace: WorkspaceConfig,
}

/// The messages of a list, as character sequences.
pub open spec fn texts(v: Seq<String>) -> Seq<Seq<char>> {
    v.map_values(|s: String| s@)
}

/// `m` alone if `cond`, else nothing.
pub open spec fn when(cond: bool, m: Seq<char>) -> Seq<Seq<char>> {
    if cond {
        seq![m]
    } else {
        Seq::empty()
    }
}

pub open spec fn domain_errors(d: Seq<char>) -> Seq<Seq<char>> {
    if d.len() == 0 {
        seq!["Domain cannot be empty"@]
    } else {
        when(!d.contains('.'), "Domain must be a valid FQDN"@) + when(
            has_prefix(d, "http://"@) || has_prefix(d, "https://"@),
            "Domain should not include protocol (http/https)"@,
        )
    }
}

pub open spec fn domain_warnings(d: Seq<char>) -> Seq<Seq<char>> {
    when(d.len() > 0 && d == "gitpod.example.com"@, "Using example domain - please configure a real domain"@)
}

pub open spec fn database_errors(in_cluster: bool, url: Option<Seq<char>>) -> Seq<Seq<char>> {
    when(!in_cluster && url is None, "External database URL must be provided when in_cluster is false"@) + match url {
        Some(u) => when(!has_prefix(u, "postgresql://"@) && !has_prefix(u, "mysql://"@), "Database URL must use postgresql:// or mysql:// scheme"@),
        None => Seq::empty(),
    }
}

pub open spec fn database_warnings(in_cluster: bool, url: Option<Seq<char>>) -> Seq<Seq<char>> {
    when(in_cluster && url is Some, "External database URL is ignored when in_cluster is true"@)
}

pub open spec fn storage_errors(kind: Seq<char>, has_region: bool, has_bucket: bool) -> Seq<Seq<char>> {
    if kind == "minio"@ {
        Seq::empty()
    } else if kind == "s3"@ {
        when(!has_region, "Region is required for S3 storage"@) + when(!has_bucket, "Bucket is required for S3 storage"@)
    } else if kind == "gcs"@ {
        when(!has_bucket, "Bucket is required for GCS storage"@)
    } else {
        seq!["Unsupported storage kind: "@ + kind]
    }
}

pub open spec fn storage_warnings(kind: Seq<char>, has_region: bool) -> Seq<Seq<char>> {
    when(kind == "minio"@ && has_region, "Region is not used with MinIO storage"@)
}

pub open spec fn workspace_errors(runtime: Seq<char>, socket: Seq<char>) -> Seq<Seq<char>> {
    if runtime == "containerd"@ {
        when(!has_prefix(socket, "/"@), "Containerd socket must be an absolute path"@)
    } else if runtime == "docker"@ {
        Seq::empty()
    } else {
        seq!["Unsupported workspace runtime: "@ + runtime]
    }
}

pub open spec fn workspace_warnings(runtime: Seq<char>) -> Seq<Seq<char>> {
    when(runtime != "containerd"@ && runtime == "docker"@, "Docker runtime is deprecated, consider using containerd"@)
}

pub open spec fn certificate_errors(kind: Seq<char>, has_name: bool) -> Seq<Seq<char>> {
    if kind == "secret"@ {
        when(!has_name, "Certificate name is required for secret kind"@)
    } else if kind == "cert-manager"@ || kind == "letsencrypt"@ {
        Seq::empty()
    } else {
        seq!["Unsupported certificate kind: "@ + kind]
    }
}

pub open spec fn certificate_warnings(kind: Seq<char>) -> Seq<Seq<char>> {
    when(kind != "secret"@ && kind != "cert-manager"@ && kind == "letsencrypt"@, "Let's Encrypt certificates have rate limits"@)
}

fn push_text(v: &mut Vec<String>, m: &str)
    ensures
        texts(final(v)@) == texts(old(v)@).push(m@),
{
    v.push(String::from_str(m));
    assert(texts(v@) =~= texts(old(v)@).push(m@));
}

/// Checks the domain: errors if it is empty, has no dot, or carries a
/// protocol; a warning if it is the example domain.
pub fn validate_domain(domain: &str, errors: &mut Vec<String>, warnings: &mut Vec<String>)
    ensures
        texts(final(errors)@) == texts(old(errors)@) + domain_errors(domain@),
        texts(final(warnings)@) == texts(old(warnings)@) + domain_warnings(domain@),
{
    let ghost e0 = texts(errors@);
    let ghost w0 = texts(warnings@);
    if domain.unicode_len() == 0 {
        push_text(errors, "Domain cannot be empty");
        assert(texts(warnings@) =~= w0 + domain_warnings(domain@));
        return;
    }
    if str_eq(domain, "gitpod.example.com") {
        push_text(warnings, "Using example domain - please configure a real domain");
    }
    assert(texts(warnings@) =~= w0 + domain_warnings(domain@));
    if !contains_char(domain, '.') {
        push_text(errors, "Domain must be a valid FQDN");
    }
    if starts_with(domain, "http://") || starts_with(domain, "https://") {
        push_text(errors, "Domain should not include protocol (http/https)");
    }
    assert(texts(errors@) =~= e0 + domain_errors(domain@));
}

fn opt_text(o: &Option<String>) -> (r: Option<&str>)
    ensures
        match o {
            Some(s) => r is Some && r->Some_0@ == s@,
            None => r is None,
        },
{
    match o {
        Some(s) => Some(s.as_str()),
        None => None,
    }
}

/// Checks the database settings: an external database needs a URL with a
/// PostgreSQL or MySQL scheme; a URL beside an in-cluster database is
/// ignored, with a warning.
pub fn validate_database(db: &DatabaseConfig, errors: &mut Vec<String>, warnings: &mut Vec<String>)
    ensures
        texts(final(errors)@) == texts(old(errors)@) + database_errors(db.in_cluster, opt_view(db.external_url)),
        texts(final(warnings)@) == texts(old(warnings)@) + database_warnings(db.in_cluster, opt_view(db.external_url)),
{
    let ghost e0 = texts(errors@);
    let ghost w0 = texts(warnings@);
    let url = opt_text(&db.external_url);
    if !db.in_cluster && url.is_none() {
        push_text(errors, "External database URL must be provided when in_cluster is false");
    }
    if db.in_cluster && url.is_some() {
        push_text(warnings, "External database URL is ignored when in_cluster is true");
    }
    if let Some(u) = url {
        if !starts_with(u, "postgresql://") && !starts_with(u, "mysql://") {
            push_text(errors, "Database URL must use postgresql:// or mysql:// scheme");
        }
    }
    assert(texts(errors@) =~= e0 + database_errors(db.in_cluster, opt_view(db.external_url)));
    assert(texts(warnings@) =~= w0 + database_warnings(db.in_cluster, opt_view(db.external_url)));
}

/// Checks the storage settings by kind: MinIO takes no region, S3 needs a
/// region and a bucket, GCS a bucket; any other kind is unsupported.
pub fn validate_storage(storage: &StorageConfig, errors: &mut Vec<String>, warnings: &mut Vec<String>)
    ensures
        texts(final(errors)@) == texts(old(errors)@) + storage_errors(
            storage.kind@,
            storage.region is Some,
            storage.bucket is Some,
        ),
        texts(final(warnings)@) == texts(old(warnings)@) + storage_warnings(storage.kind@, storage.region is Some),
{
    let ghost e0 = texts(errors@);
    let ghost w0 = texts(warnings@);
    let kind = storage.kind.as_str();
    if str_eq(kind, "minio") {
        if storage.region.is_some() {
            push_text(warnings, "Region is not used with MinIO storage");
        }
    } else if str_eq(kind, "s3") {
        if storage.region.is_none() {
            push_text(errors, "Region is required for S3 storage");
        }
        if storage.bucket.is_none() {
            push_text(errors, "Bucket is required for S3 storage");
        }
    } else if str_eq(kind, "gcs") {
        if storage.bucket.is_none() {
            push_text(errors, "Bucket is required for GCS storage");
        }
    } else {
        let m = joined("Unsupported storage kind: ", kind);
        push_text(errors, m.as_str());
    }
    assert(texts(errors@) =~= e0 + storage_errors(storage.kind@, storage.region is Some, storage.bucket is Some));
    assert(texts(warnings@) =~= w0 + storage_warnings(storage.kind@, storage.region is Some));
}

/// Checks the runtime: containerd needs an absolute socket path, docker is
/// deprecated, any other runtime is unsupported.
pub fn validate_workspace(workspace: &WorkspaceConfig, errors: &mut Vec<String>, warnings: &mut Vec<String>)
    ensures
        texts(final(errors)@) == texts(old(errors)@) + workspace_errors(
            workspace.runtime@,
            workspace.containerd_socket@,
        ),
        texts(final(warnings)@) == texts(old(warnings)@) + workspace_warnings(workspace.runtime@),
{
    let ghost e0 = texts(errors@);
    let ghost w0 = texts(warnings@);
    let runtime = workspace.runtime.as_str();
    if str_eq(runtime, "containerd") {
        if !starts_with(workspace.containerd_socket.as_str(), "/") {
            push_text(errors, "Containerd socket must be an absolute path");
        }
    } else if str_eq(runtime, "docker") {
        push_text(warnings, "Docker runtime is deprecated, consider using containerd");
    } else {
        let m = joined("Unsupported workspace runtime: ", runtime);
        push_text(errors, m.as_str());
    }
    assert(texts(errors@) =~= e0 + workspace_errors(workspace.runtime@, workspace.containerd_socket@));
    assert(texts(warnings@) =~= w0 + workspace_warnings(workspace.runtime@));
}

/// Checks the certificate source: a secret needs a name, Let's Encrypt has
/// rate limits, cert-manager needs nothing; any other kind is unsupported.
pub fn validate_certificates(cert: &CertificateConfig, errors: &mut Vec<String>, warnings: &mut Vec<String>)
    ensures
        texts(final(errors)@) == texts(old(errors)@) + certificate_errors(cert.kind@, cert.name is Some),
        texts(final(warnings)@) == texts(old(warnings)@) + certificate_warnings(cert.kind@),
{
    let ghost e0 = texts(errors@);
    let ghost w0 = texts(warnings@);
    let kind = cert.kind.as_str();
    if str_eq(kind, "secret") {
        if cert.name.is_none() {
            push_text(errors, "Certificate name is required for secret kind");
        }
    } else if str_eq(kind, "cert-manager") {
    } else if str_eq(kind, "letsencrypt") {
        push_text(warnings, "Let's Encrypt certificates have rate limits");
    } else {
        let m = joined("Unsupported certificate kind: ", kind);
        push_text(errors, m.as_str());
    }
    assert(texts(errors@) =~= e0 + certificate_errors(cert.kind@, cert.name is Some));
    assert(texts(warnings@) =~= w0 + certificate_warnings(cert.kind@));
}

/// What checking a configuration found: errors, which make it unusable,
/// and warnings, which do not.
pub struct ValidationReport {
    pub errors: Vec<String>,
    pub warnings: Vec<String>,
}

impl ValidationReport {
    /// Whether the configuration passed: it holds no error.
    pub fn passed(&self) -> (r: bool)
        ensures
            r == (self.errors@.len() == 0),
    {
        self.errors.len() == 0
    }
}

/// Every error the rules find in `c`, section by section.
pub open spec fn config_errors(c: GitpodConfig) -> Seq<Seq<char>> {
    domain_errors(c.domain@) + database_errors(c.database.in_cluster, opt_view(c.database.external_url))
        + storage_errors(c.storage.kind@, c.storage.region is Some, c.storage.bucket is Some)
        + workspace_errors(c.workspace.runtime@, c.workspace.containerd_socket@)
        + certificate_errors(c.certificate.kind@, c.certificate.name is Some)
}

/// Every warning the rules find in `c`, section by section.
pub open spec fn config_warnings(c: GitpodConfig) -> Seq<Seq<char>> {
    domain_warnings(c.domain@) + database_warnings(c.database.in_cluster, opt_view(c.database.external_url))
        + storage_warnings(c.storage.kind@, c.storage.region is Some)
        + workspace_warnings(c.workspace.runtime@)
        + certificate_warnings(c.certificate.kind@)
}

/// Checks the domain, database, storage, workspace and certificate
/// sections, in that order.
pub fn validate_config(config: &GitpodConfig) -> (r: ValidationReport)
    ensures
        texts(r.errors@) == config_errors(*config),
        texts(r.warnings@) == config_warnings(*config),
{
    let mut errors: Vec<String> = Vec::new();
    let mut warnings: Vec<String> = Vec::new();
    assert(texts(errors@) =~= Seq::<Seq<char>>::empty());
    assert(texts(warnings@) =~= Seq::<Seq<char>>::empty());
    validate_domain(config.domain.as_str(), &mut errors, &mut warnings);
    validate_database(&config.database, &mut errors, &mut warnings);
    validate_storage(&config.storage, &mut errors, &mut warnings);
    validate_workspace(&config.workspace, &mut errors, &mut warnings);
    validate_certificates(&config.certificate, &mut errors, &mut warnings);
    ValidationReport { errors, warnings }
}

impl Default for GitpodConfig {
    /// The example installation: in-cluster database, MinIO storage,
    /// containerd, certificates from a secret.
    fn default() -> (r: GitpodConfig)
        ensures
            r.domain@ == "gitpod.example.com"@,
            r.certificate.kind@ == "secret"@,
            opt_view(r.certificate.name) == Some("https-certificates"@),
            r.database.in_cluster,
            r.database.external_url is None,
            r.storage.kind@ == "minio"@,
            r.storage.region is None,
            r.storage.bucket is None,
            r.workspace.runtime@ == "containerd"@,
            r.workspace.containerd_socket@ == "/run/containerd/containerd.sock"@,
    {
        GitpodConfig {
            domain: String::from_str("gitpod.example.com"),
            certificate: CertificateConfig {
                kind: String::from_str("secret"),
                name: Some(String::from_str("https-certificates")),
            },
            database: DatabaseConfig { in_cluster: true, external_url: None },
            storage: StorageConfig { kind: String::from_str("minio"), region: None, bucket: None },
            workspace: WorkspaceConfig {
                runtime: String::from_str("containerd"),
                containerd_socket: String::from_str("/run/containerd/containerd.sock"),
            },
        }
    }
}

/// How a flag is written in the manifest.
pub open spec fn bool_text(b: bool) -> Seq<char> {
    if b {
        "true"@
    } else {
        "false"@
    }
}

/// The ConfigMap that carries the domain, the database placement, the
/// storage kind and the runtime.
pub open spec fn manifest_text(c: GitpodConfig) -> Seq<char> {
    "\napiVersion: v1\nkind: ConfigMap\nmetadata:\n  name: gitpod-config\n  namespace: gitpod\ndata:\n  domain: \""@ + c.domain@ + "\"\n  database.in_cluster: \""@ + bool_text(c.database.in_cluster) + "\"\n  storage.kind: \""@
        + c.storage.kind@ + "\"\n  workspace.runtime: \""@ + c.workspace.runtime@ + "\"\n"@
}

/// Renders the Kubernetes manifest of `config`.
pub fn render_kubernetes_manifests(config: &GitpodConfig) -> (r: String)
    ensures
        r@ == manifest_text(*config),
{
    let flag = if config.database.in_cluster {
        "true"
    } else {
        "false"
    };
    let mut out = String::from_str("\napiVersion: v1\nkind: ConfigMap\nmetadata:\n  name: gitpod-config\n  namespace: gitpod\ndata:\n  domain: \"");
    out.append(config.domain.as_str());
    out.append("\"\n  database.in_cluster: \"");
    out.append(flag);
    out.append("\"\n  storage.kind: \"");
    out.append(config.storage.kind.as_str());
    out.append("\"\n  workspace.runtime: \"");
    out.append(config.workspace.runtime.as_str());
    out.append("\"\n");
    out
}

} // verus!
