//! What a workspace is provisioned with, and the figures the API reports.

use vstd::prelude::*;
use crate::status::WorkspaceStatus;
use crate::store::views;
use crate::text::joined;
use crate::workspace::{Workspace, WorkspaceView};

verus! {

/// Compute resources of a workspace, in Kubernetes quantity notation.
pub struct ResourceConfig {
    pub cpu: String,
    pub memory: String,
    pub storage: String,
}

/// An environment variable set in a workspace.
pub struct EnvVar {
    pub name: String,
    pub value: String,
}

/// The image, resources and environment of a workspace.
pub struct WorkspaceConfig {
    pub image: String,
    pub resources: ResourceConfig,
    pub environment: Vec<EnvVar>,
}

impl Default for WorkspaceConfig {
    /// The full image with two CPUs, 4Gi of memory and 10Gi of storage, and
    /// an empty workspace-id variable.
    fn default() -> (r: WorkspaceConfig)
        ensures
            r.image@ == "gitpod/workspace-full"@,
            r.resources.cpu@ == "2"@,
            r.resources.memory@ == "4Gi"@,
            r.resources.storage@ == "10Gi"@,
            r.environment@.len() == 1,
            r.environment@[0].name@ == "GITPOD_WORKSPACE_ID"@,
            r.environment@[0].value@.len() == 0,
    {
        let mut environment: Vec<EnvVar> = Vec::new();
        environment.push(EnvVar { name: String::from_str("GITPOD_WORKSPACE_ID"), value: String::new() });
        WorkspaceConfig {
            image: String::from_str("gitpod/workspace-full"),
            resources: ResourceConfig {
                cpu: String::from_str("2"),
                memory: String::from_str("4Gi"),
                storage: String::from_str("10Gi"),
            },
            environment,
        }
    }
}

/// The answer to a health probe.
pub struct HealthResponse {
    pub status: String,
    pub version: String,
    pub timestamp: String,
}

impl HealthResponse {
    /// A healthy answer for the given version and time of day.
    pub fn healthy(version: String, timestamp: String) -> (r: HealthResponse)
        ensures
            r.status@ == "healthy"@,
            r.version@ == version@,
            r.timestamp@ == timestamp@,
    {
        HealthResponse { status: String::from_str("healthy"), version, timestamp }
    }
}

/// How many of the records are running.
pub open spec fn running_count(s: Seq<WorkspaceView>) -> nat
    decreases s.len(),
{
    if s.len() == 0 {
        0
    } else {
        running_count(s.drop_last()) + if s.last().status == WorkspaceStatus::Running {
            1nat
        } else {
            0nat
        }
    }
}

proof fn lemma_running_count_bound(s: Seq<WorkspaceView>)
    ensures
        running_count(s) <= s.len(),
    decreases s.len(),
{
    if s.len() > 0 {
        lemma_running_count_bound(s.drop_last());
    }
}

/// Usage figures of the platform.
pub struct MetricsResponse {
    pub active_workspaces: u64,
    pub total_users: u64,
    pub uptime_seconds: u64,
}

impl MetricsResponse {
    /// The figures for a listing of workspaces: the running ones are active;
    /// users and uptime are not tracked and read zero.
    pub fn from_workspaces(workspaces: &Vec<Workspace>) -> (r: MetricsResponse)
        ensures
            r.active_workspaces == running_count(views(workspaces@)),
            r.total_users == 0,
            r.uptime_seconds == 0,
    {
        let n = workspaces.len();
        let mut active: u64 = 0;
        let mut i: usize = 0;
        while i < n
            invariant
                n == workspaces@.len(),
                i <= n,
                active == running_count(views(workspaces@).take(i as int)),
            decreases n - i,
        {
            proof {
                let s = views(workspaces@);
                assert(s.take(i as int + 1).drop_last() =~= s.take(i as int));
                lemma_running_count_bound(s.take(i as int));
            }
            if workspaces[i].status == WorkspaceStatus::Running {
                active = active + 1;
            }
            i = i + 1;
        }
        assert(views(workspaces@).take(n as int) =~= views(workspaces@));
        MetricsResponse { active_workspaces: active, total_users: 0, uptime_seconds: 0 }
    }
}

/// `[stamp]` followed by the rest of a log line.
pub open spec fn log_line(stamp: Seq<char>, rest: Seq<char>) -> Seq<char> {
    "["@ + stamp + rest
}

fn stamped(stamp: &str, rest: &str) -> (r: String)
    ensures
        r@ == log_line(stamp@, rest@),
{
    let head = joined("[", stamp);
    joined(head.as_str(), rest)
}

/// The startup log of a workspace, each line stamped with `stamp`.
pub fn workspace_logs(stamp: &str) -> (r: Vec<String>)
    ensures
        r@.len() == 3,
        r@[0]@ == log_line(stamp@, "] Workspace starting"@),
        r@[1]@ == log_line(stamp@, "] Installing dependencies"@),
        r@[2]@ == log_line(stamp@, "] Workspace ready"@),
{
    let mut lines: Vec<String> = Vec::new();
    lines.push(stamped(stamp, "] Workspace starting"));
    lines.push(stamped(stamp, "] Installing dependencies"));
    lines.push(stamped(stamp, "] Workspace ready"));
    lines
}

} // verus!
