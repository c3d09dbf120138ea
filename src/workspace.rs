//! The workspace record and the one way its status changes.

use vstd::prelude::*;
use crate::ids::{id_text, uuid_text};
use crate::status::WorkspaceStatus;
use crate::text::joined;

verus! {

/// The address of a running workspace: `https://<id>.gitpod.example.com`.
pub open spec fn running_url(id: u128) -> Seq<char> {
    "https://"@ + uuid_text(id) + ".gitpod.example.com"@
}

/// Builds the address at which the workspace `id` is served while running.
pub fn workspace_url(id: u128) -> (r: String)
    ensures
        r@ == running_url(id),
{
    let text = id_text(id);
    let head = joined("https://", text.as_str());
    joined(head.as_str(), ".gitpod.example.com")
}

pub open spec fn opt_view(o: Option<String>) -> Option<Seq<char>> {
    match o {
        Some(s) => Some(s@),
        None => None,
    }
}

/// A workspace record as plain values.
pub struct WorkspaceView {
    pub id: u128,
    pub user_id: u128,
    pub name: Seq<char>,
    pub image: Option<Seq<char>>,
    pub repository_url: Option<Seq<char>>,
    pub status: WorkspaceStatus,
    pub url: Option<Seq<char>>,
    pub created_at: i64,
    pub updated_at: i64,
    pub revision: u64,
}

/// A user's development environment. Timestamps are milliseconds since the
/// epoch; `revision` counts the mutations applied since creation.
#[derive(Debug)]
pub struct Workspace {
    pub id: u128,
    pub user_id: u128,
    pub name: String,
    pub image: Option<String>,
    pub repository_url: Option<String>,
    pub status: WorkspaceStatus,
    pub url: Option<String>,
    pub created_at: i64,
    pub updated_at: i64,
    pub revision: u64,
}

impl View for Workspace {
    type V = WorkspaceView;

    open spec fn view(&self) -> WorkspaceView {
        WorkspaceView {
            id: self.id,
            user_id: self.user_id,
            name: self.name@,
            image: opt_view(self.image),
            repository_url: opt_view(self.repository_url),
            status: self.status,
            url: opt_view(self.url),
            created_at: self.created_at,
            updated_at: self.updated_at,
            revision: self.revision,
        }
    }
}

impl WorkspaceView {
    /// The record invariants: an address exactly while running, and that
    /// address derived from the identifier; never updated before created.
    pub open spec fn wf(self) -> bool {
        &&& self.url.is_some() == (self.status == WorkspaceStatus::Running)
        &&& (self.url.is_some() ==> self.url.unwrap() == running_url(self.id))
        &&& self.updated_at >= self.created_at
    }
}

/// A fresh record in `Creating`, with no address, stamped `now`.
pub open spec fn new_record(
    id: u128,
    user_id: u128,
    name: Seq<char>,
    image: Option<Seq<char>>,
    repository_url: Option<Seq<char>>,
    now: i64,
) -> WorkspaceView {
    WorkspaceView {
        id,
        user_id,
        name,
        image,
        repository_url,
        status: WorkspaceStatus::Creating,
        url: None,
        created_at: now,
        updated_at: now,
        revision: 0,
    }
}

/// The later of two instants.
pub open spec fn later(a: i64, b: i64) -> i64 {
    if a >= b {
        a
    } else {
        b
    }
}

/// The record after its status is set to `target` at time `now`: the
/// address follows the status, `updated_at` is refreshed (never moving
/// backwards), and the revision goes up by one.
pub open spec fn transitioned(w: WorkspaceView, target: WorkspaceStatus, now: i64) -> WorkspaceView {
    WorkspaceView {
        status: target,
        url: if target == WorkspaceStatus::Running {
            Some(running_url(w.id))
        } else {
            None
        },
        updated_at: later(w.updated_at, now),
        revision: (w.revision + 1) as u64,
        ..w
    }
}

/// A transition keeps the record invariants.
pub proof fn lemma_transition_keeps_wf(w: WorkspaceView, target: WorkspaceStatus, now: i64)
    requires
        w.wf(),
    ensures
        transitioned(w, target, now).wf(),
{
}

fn clone_text(o: &Option<String>) -> (r: Option<String>)
    ensures
        opt_view(r) == opt_view(*o),
{
    match o {
        Some(s) => Some(s.clone()),
        None => None,
    }
}

impl Workspace {
    /// A record in `Creating`, with no address, stamped `now`.
    pub fn new(
        id: u128,
        user_id: u128,
        name: String,
        image: Option<String>,
        repository_url: Option<String>,
        now: i64,
    ) -> (r: Workspace)
        ensures
            r@ == new_record(id, user_id, name@, opt_view(image), opt_view(repository_url), now),
    {
        Workspace {
            id,
            user_id,
            name,
            image,
            repository_url,
            status: WorkspaceStatus::Creating,
            url: None,
            created_at: now,
            updated_at: now,
            revision: 0,
        }
    }

    /// A copy of the record.
    pub fn snapshot(&self) -> (r: Workspace)
        ensures
            r@ == self@,
    {
        Workspace {
            id: self.id,
            user_id: self.user_id,
            name: self.name.clone(),
            image: clone_text(&self.image),
            repository_url: clone_text(&self.repository_url),
            status: self.status,
            url: clone_text(&self.url),
            created_at: self.created_at,
            updated_at: self.updated_at,
            revision: self.revision,
        }
    }

    /// Sets the status to `target` at time `now`, with the address and the
    /// timestamps that follow from it.
    pub fn transition(&mut self, target: WorkspaceStatus, now: i64)
        requires
            old(self)@.revision < u64::MAX,
        ensures
            final(self)@ == transitioned(old(self)@, target, now),
    {
        self.status = target;
        if target == WorkspaceStatus::Running {
            self.url = Some(workspace_url(self.id));
        } else {
            self.url = None;
        }
        if now > self.updated_at {
            self.updated_at = now;
        }
        self.revision = self.revision + 1;
    }
}

} // verus!
