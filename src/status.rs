//! The status of a workspace and its textual form.

use vstd::prelude::*;
use crate::text::str_eq;

verus! {

/// Where a workspace stands in its lifecycle.
#[derive(Clone, Copy, Debug, PartialEq, Eq, Structural)]
pub enum WorkspaceStatus {
    Creating,
    Running,
    Stopping,
    Stopped,
    Failed,
}

/// The name under which a status is rendered.
pub open spec fn status_name(s: WorkspaceStatus) -> Seq<char> {
    match s {
        WorkspaceStatus::Creating => "Creating"@,
        WorkspaceStatus::Running => "Running"@,
        WorkspaceStatus::Stopping => "Stopping"@,
        WorkspaceStatus::Stopped => "Stopped"@,
        WorkspaceStatus::Failed => "Failed"@,
    }
}

/// The status that a stored name stands for; an unknown name means `Failed`.
pub open spec fn status_of(s: Seq<char>) -> WorkspaceStatus {
    if s == "Creating"@ {
        WorkspaceStatus::Creating
    } else if s == "Running"@ {
        WorkspaceStatus::Running
    } else if s == "Stopping"@ {
        WorkspaceStatus::Stopping
    } else if s == "Stopped"@ {
        WorkspaceStatus::Stopped
    } else {
        WorkspaceStatus::Failed
    }
}

impl WorkspaceStatus {
    /// The state name, as it appears on the wire.
    pub fn name(&self) -> (r: &'static str)
        ensures
            r@ == status_name(*self),
    {
        match self {
            WorkspaceStatus::Creating => "Creating",
            WorkspaceStatus::Running => "Running",
            WorkspaceStatus::Stopping => "Stopping",
            WorkspaceStatus::Stopped => "Stopped",
            WorkspaceStatus::Failed => "Failed",
        }
    }
}

/// Reads a stored status name; any name that is not one of the five states
/// reads as `Failed`.
pub fn parse_status(status: &str) -> (r: WorkspaceStatus)
    ensures
        r == status_of(status@),
{
    if str_eq(status, "Creating") {
        WorkspaceStatus::Creating
    } else if str_eq(status, "Running") {
        WorkspaceStatus::Running
    } else if str_eq(status, "Stopping") {
        WorkspaceStatus::Stopping
    } else if str_eq(status, "Stopped") {
        WorkspaceStatus::Stopped
    } else {
        WorkspaceStatus::Failed
    }
}

/// Reading back the rendered name of a status gives that status.
pub proof fn lemma_status_name_round_trip(s: WorkspaceStatus)
    ensures
        status_of(status_name(s)) == s,
{
    reveal_strlit("Creating");
    reveal_strlit("Running");
    reveal_strlit("Stopping");
    reveal_strlit("Stopped");
    reveal_strlit("Failed");
    if s is Running {
        assert("Running"@[0] != "Creating"@[0]);
    } else if s is Stopping {
        assert("Stopping"@[0] != "Creating"@[0]);
        assert("Stopping"@.len() != "Running"@.len());
    } else if s is Stopped {
        assert("Stopped"@[0] != "Creating"@[0]);
        assert("Stopped"@[1] != "Running"@[1]);
        assert("Stopped"@.len() != "Stopping"@.len());
    } else if s is Failed {
        assert("Failed"@[0] != "Creating"@[0]);
        assert("Failed"@.len() != "Running"@.len());
        assert("Failed"@.len() != "Stopping"@.len());
        assert("Failed"@[1] != "Stopped"@[1]);
    }
}

} // verus!
