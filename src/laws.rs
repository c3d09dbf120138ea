//! Properties of the lifecycle that hold across several operations.

use vstd::prelude::*;
use crate::manager::{
    provision_job, shutdown_job, start_effect, stop_effect, stop_outcome, LifecycleError, WorkspaceManager,
    PROVISION_DELAY_MS, SHUTDOWN_DELAY_MS,
};
use crate::scheduler::{apply_job, apply_jobs, due_jobs, due_time, ScheduledTransition};
use crate::status::WorkspaceStatus;
use crate::store::{has_id, index_of, lookup, registry_wf};
use crate::workspace::{lemma_transition_keeps_wf, transitioned, Workspace, WorkspaceView};

verus! {

/// In every registry, a record has an address exactly while it runs.
pub proof fn lemma_url_iff_running(s: Seq<WorkspaceView>, i: int)
    requires
        registry_wf(s),
        0 <= i < s.len(),
    ensures
        s[i].url.is_some() == (s[i].status == WorkspaceStatus::Running),
{
    assert(s[i].wf());
}

/// Stopping twice in a row: the first request moves a running workspace to
/// `Stopping`, the second changes nothing, and neither fails; once the
/// shutdown transition fires, the workspace is `Stopped`, with no address.
pub proof fn lemma_stop_idempotent(w: WorkspaceView, first: i64, second: i64, fired: i64)
    requires
        w.wf(),
        w.status == WorkspaceStatus::Running,
        w.revision < u64::MAX - 1,
    ensures
        stop_effect(w, first).status == WorkspaceStatus::Stopping,
        stop_effect(stop_effect(w, first), second) == stop_effect(w, first),
        transitioned(stop_effect(w, first), WorkspaceStatus::Stopped, fired).status == WorkspaceStatus::Stopped,
        transitioned(stop_effect(w, first), WorkspaceStatus::Stopped, fired).url is None,
{
}

/// Starting a workspace that is already running or being created changes
/// nothing.
pub proof fn lemma_start_idempotent(w: WorkspaceView, now: i64)
    requires
        w.status == WorkspaceStatus::Running || w.status == WorkspaceStatus::Creating,
    ensures
        start_effect(w, now) == w,
{
}

/// A firing transition keeps every identifier where it was and every record
/// invariant.
proof fn lemma_apply_job_frame(s: Seq<WorkspaceView>, job: ScheduledTransition, now: i64)
    requires
        forall|i: int| 0 <= i < s.len() ==> (#[trigger] s[i]).wf(),
    ensures
        apply_job(s, job, now).len() == s.len(),
        forall|i: int| 0 <= i < s.len() ==> (#[trigger] apply_job(s, job, now)[i]).id == s[i].id,
        forall|i: int| 0 <= i < s.len() ==> (#[trigger] apply_job(s, job, now)[i]).wf(),
{
    let id = job.workspace_id;
    if has_id(s, id) {
        let k = index_of(s, id);
        let w = s[k];
        if w.revision < u64::MAX {
            lemma_transition_keeps_wf(w, job.target, now);
        }
    }
}

proof fn lemma_apply_job_keeps_wf(s: Seq<WorkspaceView>, job: ScheduledTransition, now: i64)
    requires
        registry_wf(s),
    ensures
        registry_wf(apply_job(s, job, now)),
        forall|id: u128| has_id(apply_job(s, job, now), id) == has_id(s, id),
{
    lemma_apply_job_frame(s, job, now);
    let t = apply_job(s, job, now);
    assert forall|i: int, j: int| 0 <= i < t.len() && 0 <= j < t.len() && t[i].id == t[j].id implies i == j by {
        assert(t[i].id == s[i].id);
        assert(t[j].id == s[j].id);
    }
    assert forall|id: u128| has_id(t, id) == has_id(s, id) by {
        if has_id(t, id) {
            let i = choose|i: int| 0 <= i < t.len() && t[i].id == id;
            assert(s[i].id == id);
        }
        if has_id(s, id) {
            let i = choose|i: int| 0 <= i < s.len() && s[i].id == id;
            assert(t[i].id == id);
        }
    }
}

/// Firing transitions never adds a record: a workspace deleted before its
/// scheduled transitions fire stays deleted, and the registry stays sound.
pub proof fn lemma_no_resurrection(s: Seq<WorkspaceView>, jobs: Seq<ScheduledTransition>, now: i64, id: u128)
    requires
        registry_wf(s),
        lookup(s, id) is None,
    ensures
        registry_wf(apply_jobs(s, jobs, now)),
        lookup(apply_jobs(s, jobs, now), id) is None,
    decreases jobs.len(),
{
    if jobs.len() > 0 {
        lemma_no_resurrection(s, jobs.drop_last(), now, id);
        lemma_apply_job_keeps_wf(apply_jobs(s, jobs.drop_last(), now), jobs.last(), now);
    }
}

/// No update is lost: when any number of transitions fire on one workspace,
/// one after the other, each is applied to the record the previous one left,
/// so its revision goes up by exactly their number.
pub proof fn lemma_no_lost_updates(
    s: Seq<WorkspaceView>,
    w: WorkspaceView,
    jobs: Seq<ScheduledTransition>,
    now: i64,
)
    requires
        registry_wf(s),
        lookup(s, w.id) == Some(w),
        forall|i: int| 0 <= i < jobs.len() ==> (#[trigger] jobs[i]).workspace_id == w.id,
        w.revision + jobs.len() <= u64::MAX,
    ensures
        registry_wf(apply_jobs(s, jobs, now)),
        lookup(apply_jobs(s, jobs, now), w.id) is Some,
        lookup(apply_jobs(s, jobs, now), w.id)->Some_0.revision == w.revision + jobs.len(),
    decreases jobs.len(),
{
    if jobs.len() > 0 {
        let rest = jobs.drop_last();
        assert forall|i: int| 0 <= i < rest.len() implies (#[trigger] rest[i]).workspace_id == w.id by {
            assert(rest[i] == jobs[i]);
        }
        lemma_no_lost_updates(s, w, rest, now);
        let t = apply_jobs(s, rest, now);
        let job = jobs.last();
        assert(job == jobs[jobs.len() - 1]);
        lemma_apply_job_keeps_wf(t, job, now);
        let k = index_of(t, w.id);
        let u = t[k];
        let t2 = apply_job(t, job, now);
        assert(t2[k].id == w.id);
        assert(has_id(t2, w.id));
        let k2 = index_of(t2, w.id);
        assert(t2[k2].id == w.id);
        assert(k2 == k);
        assert(t2[k] == transitioned(u, job.target, now));
    }
}

/// Two stop requests in a row on the same workspace: when the first
/// succeeds, so does the second, which returns the same record and neither
/// changes a record nor schedules anything.
pub proof fn lemma_stop_twice(
    m0: WorkspaceManager,
    m1: WorkspaceManager,
    m2: WorkspaceManager,
    id: u128,
    first: i64,
    second: i64,
    r1: Result<Workspace, LifecycleError>,
    r2: Result<Workspace, LifecycleError>,
)
    requires
        m0.wf(),
        m1.wf(),
        stop_outcome(m0, m1, id, first, r1),
        stop_outcome(m1, m2, id, second, r2),
        r1 is Ok,
    ensures
        r2 is Ok,
        r2->Ok_0@ == r1->Ok_0@,
        r2->Ok_0@.status != WorkspaceStatus::Running,
        m2.records() == m1.records(),
        m2.pending() == m1.pending(),
{
    m0.lemma_wf();
    m1.lemma_wf();
    let s0 = m0.records();
    let s1 = m1.records();
    let w = lookup(s0, id)->Some_0;
    if w.status == WorkspaceStatus::Running {
        let k = index_of(s0, id);
        assert(s0[k].id == id);
        assert(s1[k].id == id);
        assert(has_id(s1, id));
        let k1 = index_of(s1, id);
        assert(s1[k1].id == id);
        assert(k1 == k);
    }
}

/// A transition for another workspace leaves this one as it was.
proof fn lemma_apply_job_other(s: Seq<WorkspaceView>, job: ScheduledTransition, now: i64, id: u128)
    requires
        registry_wf(s),
        job.workspace_id != id,
    ensures
        registry_wf(apply_job(s, job, now)),
        lookup(apply_job(s, job, now), id) == lookup(s, id),
{
    lemma_apply_job_keeps_wf(s, job, now);
    let t = apply_job(s, job, now);
    if has_id(s, id) {
        let k = index_of(s, id);
        assert(s[k].id == id);
        if has_id(s, job.workspace_id) {
            let k2 = index_of(s, job.workspace_id);
            assert(s[k2].id == job.workspace_id);
        }
        assert(t[k] == s[k]);
        assert(has_id(t, id));
        let k1 = index_of(t, id);
        assert(t[k1].id == id);
        assert(t[k].id == id);
    }
}

/// Transitions for other workspaces leave this one as it was.
proof fn lemma_apply_jobs_other(s: Seq<WorkspaceView>, jobs: Seq<ScheduledTransition>, now: i64, id: u128)
    requires
        registry_wf(s),
        forall|i: int| 0 <= i < jobs.len() ==> (#[trigger] jobs[i]).workspace_id != id,
    ensures
        registry_wf(apply_jobs(s, jobs, now)),
        lookup(apply_jobs(s, jobs, now), id) == lookup(s, id),
    decreases jobs.len(),
{
    if jobs.len() > 0 {
        let rest = jobs.drop_last();
        assert forall|i: int| 0 <= i < rest.len() implies (#[trigger] rest[i]).workspace_id != id by {
            assert(rest[i] == jobs[i]);
        }
        lemma_apply_jobs_other(s, rest, now, id);
        assert(jobs.last() == jobs[jobs.len() - 1]);
        lemma_apply_job_other(apply_jobs(s, rest, now), jobs.last(), now, id);
    }
}

/// The due jobs are among the scheduled ones.
proof fn lemma_due_jobs_avoid(jobs: Seq<ScheduledTransition>, now: i64, id: u128)
    requires
        forall|i: int| 0 <= i < jobs.len() ==> (#[trigger] jobs[i]).workspace_id != id,
    ensures
        forall|i: int| 0 <= i < due_jobs(jobs, now).len() ==> (#[trigger] due_jobs(jobs, now)[i]).workspace_id != id,
    decreases jobs.len(),
{
    if jobs.len() > 0 {
        let rest = jobs.drop_last();
        assert forall|i: int| 0 <= i < rest.len() implies (#[trigger] rest[i]).workspace_id != id by {
            assert(rest[i] == jobs[i]);
        }
        lemma_due_jobs_avoid(rest, now, id);
        assert(jobs.last() == jobs[jobs.len() - 1]);
    }
}

/// A job fires on a record that it alone targets among the due jobs.
proof fn lemma_fire_last_job(
    s: Seq<WorkspaceView>,
    earlier: Seq<ScheduledTransition>,
    job: ScheduledTransition,
    w: WorkspaceView,
    now: i64,
    t: i64,
)
    requires
        registry_wf(s),
        lookup(s, w.id) == Some(w),
        w.revision < u64::MAX,
        job.workspace_id == w.id,
        job.due_at <= t,
        forall|i: int| 0 <= i < earlier.len() ==> (#[trigger] earlier[i]).workspace_id != w.id,
    ensures
        lookup(apply_jobs(s, due_jobs(earlier.push(job), t), t), w.id) == Some(transitioned(w, job.target, t)),
{
    let q = earlier.push(job);
    assert(q.drop_last() =~= earlier);
    let d = due_jobs(earlier, t);
    lemma_due_jobs_avoid(earlier, t, w.id);
    assert(due_jobs(q, t) == d.push(job));
    assert(d.push(job).drop_last() =~= d);
    lemma_apply_jobs_other(s, d, t, w.id);
    let s1 = apply_jobs(s, d, t);
    let k = index_of(s1, w.id);
    assert(s1[k].id == w.id);
    lemma_apply_job_keeps_wf(s1, job, t);
    let s2 = apply_job(s1, job, t);
    assert(s2[k].id == w.id);
    assert(has_id(s2, w.id));
    let k2 = index_of(s2, w.id);
    assert(s2[k2].id == w.id);
    assert(k2 == k);
}

/// A newly created workspace runs once the provisioning delay has passed:
/// whatever else the registry and the queue hold, when the due transitions
/// fire at `t`, the record is `Running` at its address. No earlier job may
/// name the same identifier.
pub proof fn lemma_provisioned_after_delay(
    s: Seq<WorkspaceView>,
    pending: Seq<ScheduledTransition>,
    w: WorkspaceView,
    now: i64,
    t: i64,
)
    requires
        registry_wf(s),
        !has_id(s, w.id),
        w.wf(),
        w.status == WorkspaceStatus::Creating,
        w.revision == 0,
        forall|i: int| 0 <= i < pending.len() ==> (#[trigger] pending[i]).workspace_id != w.id,
        t >= due_time(now, PROVISION_DELAY_MS),
    ensures
        lookup(apply_jobs(s.push(w), due_jobs(pending.push(provision_job(w.id, now)), t), t), w.id) == Some(
            transitioned(w, WorkspaceStatus::Running, t),
        ),
        transitioned(w, WorkspaceStatus::Running, t).url == Some(crate::workspace::running_url(w.id)),
{
    let s1 = s.push(w);
    assert(s1[s.len() as int].id == w.id);
    assert(registry_wf(s1)) by {
        assert forall|i: int, j: int| 0 <= i < s1.len() && 0 <= j < s1.len() && s1[i].id == s1[j].id implies i
            == j by {
            if i < s.len() && j == s.len() {
                assert(s[i].id == w.id);
            }
            if j < s.len() && i == s.len() {
                assert(s[j].id == w.id);
            }
        }
        assert forall|i: int| 0 <= i < s1.len() implies (#[trigger] s1[i]).wf() by {
            if i < s.len() {
                assert(s1[i] == s[i]);
            }
        }
    }
    let k = index_of(s1, w.id);
    assert(s1[k].id == w.id);
    if k < s.len() {
        assert(s[k].id == w.id);
    }
    lemma_fire_last_job(s1, pending, provision_job(w.id, now), w, now, t);
}

/// A workspace stopped while running, with no other transition pending for
/// it, is `Stopped` with no address once the shutdown delay has passed; a
/// second stop request in between adds no job, so the same holds.
pub proof fn lemma_stopped_after_delay(
    s: Seq<WorkspaceView>,
    pending: Seq<ScheduledTransition>,
    w: WorkspaceView,
    now: i64,
    t: i64,
)
    requires
        registry_wf(s),
        lookup(s, w.id) == Some(w),
        w.status == WorkspaceStatus::Running,
        w.revision < u64::MAX - 1,
        forall|i: int| 0 <= i < pending.len() ==> (#[trigger] pending[i]).workspace_id != w.id,
        t >= due_time(now, SHUTDOWN_DELAY_MS),
    ensures
        ({
            let s1 = s.update(index_of(s, w.id), stop_effect(w, now));
            let r = lookup(apply_jobs(s1, due_jobs(pending.push(shutdown_job(w.id, now)), t), t), w.id);
            &&& r is Some
            &&& r->Some_0.status == WorkspaceStatus::Stopped
            &&& r->Some_0.url is None
        }),
{
    let k = index_of(s, w.id);
    assert(s[k].id == w.id);
    let v = stop_effect(w, now);
    lemma_transition_keeps_wf(w, WorkspaceStatus::Stopping, now);
    let s1 = s.update(k, v);
    assert(registry_wf(s1)) by {
        assert forall|i: int, j: int| 0 <= i < s1.len() && 0 <= j < s1.len() && s1[i].id == s1[j].id implies i
            == j by {
            assert(s1[i].id == s[i].id);
            assert(s1[j].id == s[j].id);
        }
        assert forall|i: int| 0 <= i < s1.len() implies (#[trigger] s1[i]).wf() by {
            if i != k {
                assert(s1[i] == s[i]);
            }
        }
    }
    assert(s1[k].id == w.id);
    assert(has_id(s1, w.id));
    let k1 = index_of(s1, w.id);
    assert(s1[k1].id == w.id);
    assert(k1 == k);
    lemma_fire_last_job(s1, pending, shutdown_job(w.id, now), v, now, t);
}

/// Each of the mutations counts once: after the first `k` of them have
/// fired, the revision is up by exactly `k`, so the records they return
/// carry the revisions one after another, each exactly once.
pub proof fn lemma_each_update_counted(
    s: Seq<WorkspaceView>,
    w: WorkspaceView,
    jobs: Seq<ScheduledTransition>,
    now: i64,
)
    requires
        registry_wf(s),
        lookup(s, w.id) == Some(w),
        forall|i: int| 0 <= i < jobs.len() ==> (#[trigger] jobs[i]).workspace_id == w.id,
        w.revision + jobs.len() <= u64::MAX,
    ensures
        forall|k: int|
            0 <= k <= jobs.len() ==> #[trigger] lookup(apply_jobs(s, jobs.take(k), now), w.id) is Some
                && lookup(apply_jobs(s, jobs.take(k), now), w.id)->Some_0.revision == w.revision + k,
{
    assert forall|k: int| 0 <= k <= jobs.len() implies #[trigger] lookup(apply_jobs(s, jobs.take(k), now), w.id) is Some
        && lookup(apply_jobs(s, jobs.take(k), now), w.id)->Some_0.revision == w.revision + k by {
        let part = jobs.take(k);
        assert forall|i: int| 0 <= i < part.len() implies (#[trigger] part[i]).workspace_id == w.id by {
            assert(part[i] == jobs[i]);
        }
        lemma_no_lost_updates(s, w, part, now);
    }
}

} // verus!
