//! The platform's services, started together from one configuration.

use vstd::prelude::*;
use crate::config::{Config, ServerConfig};
use crate::manager::WorkspaceManager;
use crate::scheduler::ScheduledTransition;
use crate::users::{Database, UserView};
use crate::workspace::WorkspaceView;

verus! {

/// The running services: where the API listens, the workspace lifecycle
/// manager, and the user registry.
pub struct Services {
    pub server: ServerConfig,
    pub workspace_manager: WorkspaceManager,
    pub database: Database,
}

/// Starts every service from `config`, each empty.
pub fn start_services(config: Config) -> (r: Services)
    ensures
        r.server == config.server,
        r.workspace_manager.wf(),
        r.workspace_manager.records() == Seq::<WorkspaceView>::empty(),
        r.workspace_manager.pending() == Seq::<ScheduledTransition>::empty(),
        r.database.wf(),
        r.database@ == Seq::<UserView>::empty(),
{
    Services { server: config.server, workspace_manager: WorkspaceManager::new(), database: Database::new() }
}

} // verus!
