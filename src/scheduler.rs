//! Delayed status transitions. Jobs wait in the scheduler until their due
//! time; the caller that schedules one never waits for it. Whoever drives
//! time forward hands the current instant to `run_due`.

use vstd::prelude::*;
use crate::status::WorkspaceStatus;
use crate::store::{index_of, lookup, WorkspaceStore};
use crate::workspace::{transitioned, Workspace, WorkspaceView};

verus! {

/// A pending change of `workspace_id` to `target`, due at `due_at`
/// (milliseconds since the epoch).
#[derive(Clone, Copy, Debug, PartialEq, Eq, Structural)]
pub struct ScheduledTransition {
    pub workspace_id: u128,
    pub due_at: i64,
    pub target: WorkspaceStatus,
}

/// `now` plus `delay_ms`, held at the largest instant when it would pass it.
pub open spec fn due_time(now: i64, delay_ms: u32) -> i64 {
    if now + delay_ms > i64::MAX {
        i64::MAX
    } else {
        (now + delay_ms) as i64
    }
}

/// The jobs of `jobs` due at `now`, in the order they were scheduled.
pub open spec fn due_jobs(jobs: Seq<ScheduledTransition>, now: i64) -> Seq<ScheduledTransition>
    decreases jobs.len(),
{
    if jobs.len() == 0 {
        jobs
    } else {
        let rest = due_jobs(jobs.drop_last(), now);
        if jobs.last().due_at <= now {
            rest.push(jobs.last())
        } else {
            rest
        }
    }
}

/// The jobs of `jobs` not yet due at `now`, in the order they were scheduled.
pub open spec fn waiting_jobs(jobs: Seq<ScheduledTransition>, now: i64) -> Seq<ScheduledTransition>
    decreases jobs.len(),
{
    if jobs.len() == 0 {
        jobs
    } else {
        let rest = waiting_jobs(jobs.drop_last(), now);
        if jobs.last().due_at <= now {
            rest
        } else {
            rest.push(jobs.last())
        }
    }
}

/// The registry after `job` fires at `now`. A job for a record that is gone,
/// or whose revision counter is full, changes nothing.
pub open spec fn apply_job(s: Seq<WorkspaceView>, job: ScheduledTransition, now: i64) -> Seq<WorkspaceView> {
    match lookup(s, job.workspace_id) {
        None => s,
        Some(w) => if w.revision == u64::MAX {
            s
        } else {
            s.update(index_of(s, job.workspace_id), transitioned(w, job.target, now))
        },
    }
}

/// The registry after `jobs` fire one after the other at `now`.
pub open spec fn apply_jobs(s: Seq<WorkspaceView>, jobs: Seq<ScheduledTransition>, now: i64) -> Seq<WorkspaceView>
    decreases jobs.len(),
{
    if jobs.len() == 0 {
        s
    } else {
        apply_job(apply_jobs(s, jobs.drop_last(), now), jobs.last(), now)
    }
}

/// Fires one transition at `now`. A record that has been deleted meanwhile
/// is not brought back: the job is dropped and `None` returned.
pub fn fire(store: &mut WorkspaceStore, job: ScheduledTransition, now: i64) -> (r: Option<Workspace>)
    requires
        old(store).wf(),
    ensures
        final(store).wf(),
        final(store)@ == apply_job(old(store)@, job, now),
        match lookup(old(store)@, job.workspace_id) {
            None => r is None,
            Some(w) => if w.revision == u64::MAX {
                r is None
            } else {
                r is Some && r->Some_0@ == transitioned(w, job.target, now)
            },
        },
{
    match store.mutate(job.workspace_id, job.target, now) {
        Ok(w) => Some(w),
        Err(_) => None,
    }
}

/// The queue of pending transitions, in the order they were scheduled.
pub struct Scheduler {
    pending: Vec<ScheduledTransition>,
}

impl View for Scheduler {
    type V = Seq<ScheduledTransition>;

    closed spec fn view(&self) -> Seq<ScheduledTransition> {
        self.pending@
    }
}

impl Scheduler {
    /// A scheduler with nothing pending.
    pub fn new() -> (r: Scheduler)
        ensures
            r@ == Seq::<ScheduledTransition>::empty(),
    {
        Scheduler { pending: Vec::new() }
    }

    /// The number of pending transitions.
    pub fn len(&self) -> (r: usize)
        ensures
            r == self@.len(),
    {
        self.pending.len()
    }

    /// Schedules the change of `id` to `target` once `delay_ms` have passed
    /// after `now`, and returns at once.
    pub fn schedule(&mut self, id: u128, delay_ms: u32, target: WorkspaceStatus, now: i64)
        ensures
            final(self)@ == old(self)@.push(
                ScheduledTransition { workspace_id: id, due_at: due_time(now, delay_ms), target },
            ),
    {
        let due_at: i64 = if now > i64::MAX - delay_ms as i64 {
            i64::MAX
        } else {
            now + delay_ms as i64
        };
        self.pending.push(ScheduledTransition { workspace_id: id, due_at, target });
    }

    /// Takes out the transitions due at `now`, in the order they were
    /// scheduled; the others stay, in their order.
    pub fn take_due(&mut self, now: i64) -> (r: Vec<ScheduledTransition>)
        ensures
            r@ == due_jobs(old(self)@, now),
            final(self)@ == waiting_jobs(old(self)@, now),
    {
        let jobs = &self.pending;
        let n = jobs.len();
        let mut due: Vec<ScheduledTransition> = Vec::new();
        let mut waiting: Vec<ScheduledTransition> = Vec::new();
        let mut i: usize = 0;
        while i < n
            invariant
                n == jobs@.len(),
                i <= n,
                due@ == due_jobs(jobs@.take(i as int), now),
                waiting@ == waiting_jobs(jobs@.take(i as int), now),
            decreases n - i,
        {
            assert(jobs@.take(i as int + 1).drop_last() =~= jobs@.take(i as int));
            let job = jobs[i];
            if job.due_at <= now {
                due.push(job);
            } else {
                waiting.push(job);
            }
            i = i + 1;
        }
        assert(jobs@.take(n as int) =~= jobs@);
        self.pending = waiting;
        due
    }

    /// Fires, at `now`, every transition that is due, in the order they were
    /// scheduled, and returns how many changed a record.
    pub fn run_due(&mut self, store: &mut WorkspaceStore, now: i64) -> (r: usize)
        requires
            old(store).wf(),
        ensures
            final(store).wf(),
            final(store)@ == apply_jobs(old(store)@, due_jobs(old(self)@, now), now),
            final(self)@ == waiting_jobs(old(self)@, now),
            r <= due_jobs(old(self)@, now).len(),
    {
        let due = self.take_due(now);
        let n = due.len();
        let mut fired: usize = 0;
        let mut i: usize = 0;
        while i < n
            invariant
                n == due@.len(),
                i <= n,
                fired <= i,
                store.wf(),
                store@ == apply_jobs(old(store)@, due@.take(i as int), now),
            decreases n - i,
        {
            assert(due@.take(i as int + 1).drop_last() =~= due@.take(i as int));
            if fire(store, due[i], now).is_some() {
                fired = fired + 1;
            }
            i = i + 1;
        }
        assert(due@.take(n as int) =~= due@);
        fired
    }
}

/// A transition for a record that has been deleted neither brings it back
/// nor changes any other record.
pub proof fn lemma_fire_after_delete(s: Seq<WorkspaceView>, job: ScheduledTransition, now: i64)
    requires
        lookup(s, job.workspace_id) is None,
    ensures
        apply_job(s, job, now) == s,
        lookup(apply_job(s, job, now), job.workspace_id) is None,
{
}

} // verus!
