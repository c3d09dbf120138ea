//! The steps of an installation and the check that comes before them.

use vstd::prelude::*;
use crate::installer::GitpodConfig;

verus! {

/// One step of installing the platform.
#[derive(Clone, Copy, Debug, PartialEq, Eq, Structural)]
pub enum InstallStep {
    InstallDatabase,
    ConfigureExternalDatabase,
    InstallStorage,
    InstallServerComponents,
    InstallWorkspaceManager,
    InstallWorkspaceDaemon,
    ConfigureIngress,
    ConfigureCertificates,
}

/// Why an installation cannot begin.
#[derive(Clone, Copy, Debug, PartialEq, Eq, Structural)]
pub enum PrerequisiteError {
    /// The Kubernetes cluster cannot be reached.
    ClusterUnreachable,
    /// No domain is configured.
    MissingDomain,
}

/// Checks what must hold before installing: a reachable cluster, then a
/// configured domain.
pub fn check_prerequisites(cluster_reachable: bool, config: &GitpodConfig) -> (r: Result<(), PrerequisiteError>)
    ensures
        !cluster_reachable ==> r == Err::<(), PrerequisiteError>(PrerequisiteError::ClusterUnreachable),
        cluster_reachable && config.domain@.len() == 0 ==> r == Err::<(), PrerequisiteError>(
            PrerequisiteError::MissingDomain,
        ),
        cluster_reachable && config.domain@.len() > 0 ==> r is Ok,
{
    if !cluster_reachable {
        return Err(PrerequisiteError::ClusterUnreachable);
    }
    if config.domain.as_str().unicode_len() == 0 {
        return Err(PrerequisiteError::MissingDomain);
    }
    Ok(())
}

/// The steps, in order: the core components (the database in the cluster
/// or an external one configured, storage, the server), then the workspace
/// components, then networking.
pub open spec fn plan_of(in_cluster: bool) -> Seq<InstallStep> {
    seq![
        if in_cluster {
            InstallStep::InstallDatabase
        } else {
            InstallStep::ConfigureExternalDatabase
        },
        InstallStep::InstallStorage,
        InstallStep::InstallServerComponents,
        InstallStep::InstallWorkspaceManager,
        InstallStep::InstallWorkspaceDaemon,
        InstallStep::ConfigureIngress,
        InstallStep::ConfigureCertificates,
    ]
}

/// The steps that installing `config` takes, in the order they run.
pub fn installation_plan(config: &GitpodConfig) -> (r: Vec<InstallStep>)
    ensures
        r@ == plan_of(config.database.in_cluster),
{
    let mut steps: Vec<InstallStep> = Vec::new();
    if config.database.in_cluster {
        steps.push(InstallStep::InstallDatabase);
    } else {
        steps.push(InstallStep::ConfigureExternalDatabase);
    }
    steps.push(InstallStep::InstallStorage);
    steps.push(InstallStep::InstallServerComponents);
    steps.push(InstallStep::InstallWorkspaceManager);
    steps.push(InstallStep::InstallWorkspaceDaemon);
    steps.push(InstallStep::ConfigureIngress);
    steps.push(InstallStep::ConfigureCertificates);
    assert(steps@ =~= plan_of(config.database.in_cluster));
    steps
}

} // verus!
