//! The lifecycle manager: validates requests, changes the registry, and
//! schedules the automatic exits from `Creating` and `Stopping`.

use vstd::prelude::*;
use crate::ids::{now_millis, generate_id};
use crate::scheduler::{apply_jobs, due_jobs, due_time, waiting_jobs, ScheduledTransition, Scheduler};
use crate::status::WorkspaceStatus;
use crate::store::{has_id, index_of, listing, lookup, registry_wf, views, StoreError, WorkspaceStore};
use crate::workspace::{new_record, opt_view, transitioned, Workspace, WorkspaceView};

verus! {

/// How long provisioning takes before a workspace runs, in milliseconds.
pub const PROVISION_DELAY_MS: u32 = 5000;

/// How long a workspace takes to shut down, in milliseconds.
pub const SHUTDOWN_DELAY_MS: u32 = 500;

/// Why a lifecycle request failed.
#[derive(Clone, Copy, Debug, PartialEq, Eq, Structural)]
pub enum LifecycleError {
    /// The request itself is malformed; nothing was changed.
    Validation,
    /// No workspace has the identifier.
    NotFound,
    /// The registry could not take the change; nothing was changed.
    ResourceFault,
}

/// The record after a start request at `now`: a stopped or failed workspace
/// goes back to `Creating`; any other is left as it is.
pub open spec fn start_effect(w: WorkspaceView, now: i64) -> WorkspaceView {
    if w.status == WorkspaceStatus::Stopped || w.status == WorkspaceStatus::Failed {
        transitioned(w, WorkspaceStatus::Creating, now)
    } else {
        w
    }
}

/// The record after a stop request at `now`: a running workspace goes to
/// `Stopping`; any other is left as it is.
pub open spec fn stop_effect(w: WorkspaceView, now: i64) -> WorkspaceView {
    if w.status == WorkspaceStatus::Running {
        transitioned(w, WorkspaceStatus::Stopping, now)
    } else {
        w
    }
}

/// The job that provisioning schedules for `id` at `now`.
pub open spec fn provision_job(id: u128, now: i64) -> ScheduledTransition {
    ScheduledTransition {
        workspace_id: id,
        due_at: due_time(now, PROVISION_DELAY_MS),
        target: WorkspaceStatus::Running,
    }
}

/// The job that a stop request schedules for `id` at `now`.
pub open spec fn shutdown_job(id: u128, now: i64) -> ScheduledTransition {
    ScheduledTransition {
        workspace_id: id,
        due_at: due_time(now, SHUTDOWN_DELAY_MS),
        target: WorkspaceStatus::Stopped,
    }
}

fn store_error(e: StoreError) -> (r: LifecycleError)
    ensures
        e == StoreError::NotFound ==> r == LifecycleError::NotFound,
        e == StoreError::Exhausted ==> r == LifecycleError::ResourceFault,
{
    match e {
        StoreError::NotFound => LifecycleError::NotFound,
        StoreError::Exhausted => LifecycleError::ResourceFault,
    }
}

/// What a start request for `id` at `now` does, with the result `r`.
pub open spec fn start_outcome(
    before: WorkspaceManager,
    after: WorkspaceManager,
    id: u128,
    now: i64,
    r: Result<Workspace, LifecycleError>,
) -> bool {
    match lookup(before.records(), id) {
        None => r == Err::<Workspace, LifecycleError>(LifecycleError::NotFound)
            && after.records() == before.records()
            && after.pending() == before.pending(),
        Some(w) => if w.status != WorkspaceStatus::Stopped && w.status != WorkspaceStatus::Failed {
            r is Ok && r->Ok_0@ == w && after.records() == before.records()
                && after.pending() == before.pending()
        } else if w.revision == u64::MAX {
            r == Err::<Workspace, LifecycleError>(LifecycleError::ResourceFault)
                && after.records() == before.records()
                && after.pending() == before.pending()
        } else {
            &&& r is Ok
            &&& r->Ok_0@ == start_effect(w, now)
            &&& after.records() == before.records().update(
                index_of(before.records(), id),
                start_effect(w, now),
            )
            &&& after.pending() == before.pending().push(provision_job(id, now))
        },
    }
}

/// What a stop request for `id` at `now` does, with the result `r`.
pub open spec fn stop_outcome(
    before: WorkspaceManager,
    after: WorkspaceManager,
    id: u128,
    now: i64,
    r: Result<Workspace, LifecycleError>,
) -> bool {
    match lookup(before.records(), id) {
        None => r == Err::<Workspace, LifecycleError>(LifecycleError::NotFound)
            && after.records() == before.records()
            && after.pending() == before.pending(),
        Some(w) => if w.status != WorkspaceStatus::Running {
            r is Ok && r->Ok_0@ == w && after.records() == before.records()
                && after.pending() == before.pending()
        } else if w.revision == u64::MAX {
            r == Err::<Workspace, LifecycleError>(LifecycleError::ResourceFault)
                && after.records() == before.records()
                && after.pending() == before.pending()
        } else {
            &&& r is Ok
            &&& r->Ok_0@ == stop_effect(w, now)
            &&& after.records() == before.records().update(
                index_of(before.records(), id),
                stop_effect(w, now),
            )
            &&& after.pending() == before.pending().push(shutdown_job(id, now))
        },
    }
}

/// The workspace registry together with the transitions pending on it.
pub struct WorkspaceManager {
    store: WorkspaceStore,
    scheduler: Scheduler,
}

impl WorkspaceManager {
    /// The records, in insertion order.
    pub closed spec fn records(&self) -> Seq<WorkspaceView> {
        self.store@
    }

    /// The transitions not yet fired, in the order they were scheduled.
    pub closed spec fn pending(&self) -> Seq<ScheduledTransition> {
        self.scheduler@
    }

    pub closed spec fn wf(&self) -> bool {
        self.store.wf()
    }

    /// The registry invariants hold of every manager.
    pub proof fn lemma_wf(&self)
        requires
            self.wf(),
        ensures
            registry_wf(self.records()),
    {
    }

    /// A manager with no workspace and nothing pending.
    pub fn new() -> (r: WorkspaceManager)
        ensures
            r.wf(),
            r.records() == Seq::<WorkspaceView>::empty(),
            r.pending() == Seq::<ScheduledTransition>::empty(),
    {
        WorkspaceManager { store: WorkspaceStore::new(), scheduler: Scheduler::new() }
    }

    /// Creates a workspace named `name` for `user_id` under the identifier
    /// `id` at `now`, and schedules it to run once provisioned. An empty name
    /// is rejected, and so is an identifier already in use.
    pub fn create_workspace_at(
        &mut self,
        id: u128,
        user_id: u128,
        name: String,
        image: Option<String>,
        repository_url: Option<String>,
        now: i64,
    ) -> (r: Result<Workspace, LifecycleError>)
        requires
            old(self).wf(),
        ensures
            final(self).wf(),
            name@.len() == 0 ==> r == Err::<Workspace, LifecycleError>(LifecycleError::Validation),
            name@.len() > 0 && has_id(old(self).records(), id) ==> r == Err::<Workspace, LifecycleError>(
                LifecycleError::ResourceFault,
            ),
            r is Err ==> final(self).records() == old(self).records() && final(self).pending()
                == old(self).pending(),
            name@.len() > 0 && !has_id(old(self).records(), id) ==> {
                &&& r is Ok
                &&& r->Ok_0@ == new_record(id, user_id, name@, opt_view(image), opt_view(repository_url), now)
                &&& final(self).records() == old(self).records().push(r->Ok_0@)
                &&& final(self).pending() == old(self).pending().push(provision_job(id, now))
            },
    {
        if name.as_str().unicode_len() == 0 {
            return Err(LifecycleError::Validation);
        }
        if self.store.get(id).is_some() {
            return Err(LifecycleError::ResourceFault);
        }
        let w = Workspace::new(id, user_id, name, image, repository_url, now);
        let copy = w.snapshot();
        self.store.put(w);
        self.scheduler.schedule(id, PROVISION_DELAY_MS, WorkspaceStatus::Running, now);
        Ok(copy)
    }

    /// Creates a workspace under a fresh random identifier, stamped with the
    /// current time; see `create_workspace_at`.
    pub fn create_workspace(
        &mut self,
        user_id: u128,
        name: String,
        image: Option<String>,
        repository_url: Option<String>,
    ) -> (r: Result<Workspace, LifecycleError>)
        requires
            old(self).wf(),
        ensures
            final(self).wf(),
            name@.len() == 0 ==> r == Err::<Workspace, LifecycleError>(LifecycleError::Validation),
            name@.len() > 0 && r is Err ==> r == Err::<Workspace, LifecycleError>(LifecycleError::ResourceFault)
                && old(self).records().len() > 0,
            r is Err ==> final(self).records() == old(self).records() && final(self).pending()
                == old(self).pending(),
            r is Ok ==> {
                let w = r->Ok_0@;
                &&& !has_id(old(self).records(), w.id)
                &&& w == new_record(w.id, user_id, name@, opt_view(image), opt_view(repository_url), w.created_at)
                &&& final(self).records() == old(self).records().push(w)
                &&& final(self).pending() == old(self).pending().push(provision_job(w.id, w.created_at))
            },
    {
        let id = generate_id();
        let now = now_millis();
        self.create_workspace_at(id, user_id, name, image, repository_url, now)
    }

    /// A copy of the workspace `id`.
    pub fn get_workspace(&self, id: u128) -> (r: Result<Workspace, LifecycleError>)
        requires
            self.wf(),
        ensures
            match lookup(self.records(), id) {
                None => r == Err::<Workspace, LifecycleError>(LifecycleError::NotFound),
                Some(w) => r is Ok && r->Ok_0@ == w,
            },
    {
        match self.store.get(id) {
            Some(w) => Ok(w),
            None => Err(LifecycleError::NotFound),
        }
    }

    /// A point-in-time copy of all workspaces, newest first, or of those of
    /// one owner in the order they were created.
    pub fn list_workspaces(&self, user_id: Option<u128>) -> (r: Vec<Workspace>)
        ensures
            views(r@) == listing(self.records(), user_id),
    {
        self.store.list(user_id)
    }

    /// Starts the workspace `id` again at `now`: a stopped or failed one goes
    /// back to `Creating` and is provisioned anew; any other is returned as
    /// it is.
    pub fn start_workspace_at(&mut self, id: u128, now: i64) -> (r: Result<Workspace, LifecycleError>)
        requires
            old(self).wf(),
        ensures
            final(self).wf(),
            start_outcome(*old(self), *final(self), id, now, r),
    {
        let current = match self.store.get(id) {
            Some(w) => w,
            None => return Err(LifecycleError::NotFound),
        };
        if current.status != WorkspaceStatus::Stopped && current.status != WorkspaceStatus::Failed {
            return Ok(current);
        }
        match self.store.mutate(id, WorkspaceStatus::Creating, now) {
            Ok(w) => {
                self.scheduler.schedule(id, PROVISION_DELAY_MS, WorkspaceStatus::Running, now);
                Ok(w)
            },
            Err(e) => Err(store_error(e)),
        }
    }

    /// Starts the workspace `id` at the current time; see `start_workspace_at`.
    pub fn start_workspace(&mut self, id: u128) -> (r: Result<Workspace, LifecycleError>)
        requires
            old(self).wf(),
        ensures
            final(self).wf(),
            exists|now: i64| start_outcome(*old(self), *final(self), id, now, r),
    {
        let now = now_millis();
        let r = self.start_workspace_at(id, now);
        assert(start_outcome(*old(self), *self, id, now, r));
        r
    }

    /// Stops the workspace `id` at `now`: a running one goes to `Stopping`
    /// and is stopped after the shutdown delay; any other is returned as it
    /// is, so that a second stop changes nothing.
    pub fn stop_workspace_at(&mut self, id: u128, now: i64) -> (r: Result<Workspace, LifecycleError>)
        requires
            old(self).wf(),
        ensures
            final(self).wf(),
            stop_outcome(*old(self), *final(self), id, now, r),
    {
        let current = match self.store.get(id) {
            Some(w) => w,
            None => return Err(LifecycleError::NotFound),
        };
        if current.status != WorkspaceStatus::Running {
            return Ok(current);
        }
        match self.store.mutate(id, WorkspaceStatus::Stopping, now) {
            Ok(w) => {
                self.scheduler.schedule(id, SHUTDOWN_DELAY_MS, WorkspaceStatus::Stopped, now);
                Ok(w)
            },
            Err(e) => Err(store_error(e)),
        }
    }

    /// Stops the workspace `id` at the current time; see `stop_workspace_at`.
    pub fn stop_workspace(&mut self, id: u128) -> (r: Result<Workspace, LifecycleError>)
        requires
            old(self).wf(),
        ensures
            final(self).wf(),
            exists|now: i64| stop_outcome(*old(self), *final(self), id, now, r),
    {
        let now = now_millis();
        let r = self.stop_workspace_at(id, now);
        assert(stop_outcome(*old(self), *self, id, now, r));
        r
    }

    /// Deletes the workspace `id`, whatever its status. Transitions pending
    /// for it stay, and are dropped when they fire.
    pub fn delete_workspace(&mut self, id: u128) -> (r: Result<(), LifecycleError>)
        requires
            old(self).wf(),
        ensures
            final(self).wf(),
            final(self).pending() == old(self).pending(),
            has_id(old(self).records(), id) ==> r is Ok && final(self).records() == old(
                self,
            ).records().remove(index_of(old(self).records(), id)),
            !has_id(old(self).records(), id) ==> r == Err::<(), LifecycleError>(LifecycleError::NotFound)
                && final(self).records() == old(self).records(),
    {
        match self.store.remove(id) {
            Ok(()) => Ok(()),
            Err(e) => Err(store_error(e)),
        }
    }

    /// Fires, at `now`, every pending transition that is due, and returns how
    /// many changed a record.
    pub fn run_due_transitions(&mut self, now: i64) -> (r: usize)
        requires
            old(self).wf(),
        ensures
            final(self).wf(),
            final(self).records() == apply_jobs(old(self).records(), due_jobs(old(self).pending(), now), now),
            final(self).pending() == waiting_jobs(old(self).pending(), now),
    {
        self.scheduler.run_due(&mut self.store, now)
    }

    /// Fires every pending transition due at the current time.
    pub fn tick(&mut self) -> (r: usize)
        requires
            old(self).wf(),
        ensures
            final(self).wf(),
            exists|now: i64|
                final(self).records() == apply_jobs(old(self).records(), due_jobs(old(self).pending(), now), now)
                    && final(self).pending() == waiting_jobs(old(self).pending(), now),
    {
        let now = now_millis();
        let r = self.run_due_transitions(now);
        assert(self.records() == apply_jobs(old(self).records(), due_jobs(old(self).pending(), now), now)
            && self.pending() == waiting_jobs(old(self).pending(), now));
        r
    }
}

} // verus!
