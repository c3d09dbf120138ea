//! The registry of users.

use vstd::prelude::*;
use crate::ids::{now_millis, generate_id};

verus! {

/// A user of the platform. Timestamps are milliseconds since the epoch.
pub struct User {
    pub id: u128,
    pub email: String,
    pub name: String,
    pub created_at: i64,
    pub updated_at: i64,
}

/// A code repository registered by a user.
pub struct Project {
    pub id: u128,
    pub user_id: u128,
    pub name: String,
    pub repository_url: String,
    pub branch: Option<String>,
    pub created_at: i64,
    pub updated_at: i64,
}

/// A user as plain values.
pub struct UserView {
    pub id: u128,
    pub email: Seq<char>,
    pub name: Seq<char>,
    pub created_at: i64,
    pub updated_at: i64,
}

impl View for User {
    type V = UserView;

    open spec fn view(&self) -> UserView {
        UserView {
            id: self.id,
            email: self.email@,
            name: self.name@,
            created_at: self.created_at,
            updated_at: self.updated_at,
        }
    }
}

impl User {
    /// A copy of the user.
    pub fn snapshot(&self) -> (r: User)
        ensures
            r@ == self@,
    {
        User {
            id: self.id,
            email: self.email.clone(),
            name: self.name.clone(),
            created_at: self.created_at,
            updated_at: self.updated_at,
        }
    }
}

/// The first position in `s` of a user with identifier `id`, if any.
pub open spec fn id_index(s: Seq<UserView>, id: u128) -> Option<int> {
    if exists|i: int| 0 <= i < s.len() && s[i].id == id {
        Some(choose|i: int| 0 <= i < s.len() && s[i].id == id && forall|j: int| 0 <= j < i ==> s[j].id != id)
    } else {
        None
    }
}

/// The first position in `s` of a user with e-mail address `email`, if any.
pub open spec fn email_index(s: Seq<UserView>, email: Seq<char>) -> Option<int> {
    if exists|i: int| 0 <= i < s.len() && s[i].email == email {
        Some(
            choose|i: int|
                0 <= i < s.len() && s[i].email == email && forall|j: int| 0 <= j < i ==> s[j].email != email,
        )
    } else {
        None
    }
}

/// Users by identifier, in the order they were created.
pub struct Database {
    users: Vec<User>,
}

impl View for Database {
    type V = Seq<UserView>;

    closed spec fn view(&self) -> Seq<UserView> {
        self.users@.map_values(|u: User| u@)
    }
}

impl Database {
    /// No two users share an identifier.
    pub open spec fn wf(&self) -> bool {
        forall|i: int, j: int| 0 <= i < self@.len() && 0 <= j < self@.len() && self@[i].id == self@[j].id ==> i == j
    }

    /// A registry without users.
    pub fn new() -> (r: Database)
        ensures
            r.wf(),
            r@ == Seq::<UserView>::empty(),
    {
        let r = Database { users: Vec::new() };
        assert(r@ =~= Seq::<UserView>::empty());
        r
    }

    /// The position of the first user whose identifier is `id`.
    fn position_by_id(&self, id: u128) -> (r: Option<usize>)
        ensures
            match r {
                Some(i) => i < self@.len() && id_index(self@, id) == Some(i as int),
                None => id_index(self@, id) is None,
            },
    {
        let n = self.users.len();
        let mut i: usize = 0;
        while i < n
            invariant
                n == self@.len(),
                i <= n,
                forall|k: int| 0 <= k < i ==> self@[k].id != id,
            decreases n - i,
        {
            if self.users[i].id == id {
                proof {
                    assert(self@[i as int].id == id);
                    assert(forall|j: int| 0 <= j < i ==> self@[j].id != id);
                    let c = id_index(self@, id)->Some_0;
                    if c < i {
                        assert(self@[c].id != id);
                    } else if c > i {
                        assert(self@[i as int].id != id);
                    }
                }
                return Some(i);
            }
            i = i + 1;
        }
        None
    }

    /// The user with identifier `id`, if any.
    pub fn get_user(&self, id: u128) -> (r: Option<User>)
        ensures
            match id_index(self@, id) {
                Some(i) => r is Some && r->Some_0@ == self@[i],
                None => r is None,
            },
    {
        match self.position_by_id(id) {
            Some(i) => Some(self.users[i].snapshot()),
            None => None,
        }
    }

    /// The first user, in order of creation, with the e-mail address `email`.
    pub fn get_user_by_email(&self, email: &str) -> (r: Option<User>)
        ensures
            match email_index(self@, email@) {
                Some(i) => r is Some && r->Some_0@ == self@[i],
                None => r is None,
            },
    {
        let n = self.users.len();
        let mut i: usize = 0;
        while i < n
            invariant
                n == self@.len(),
                i <= n,
                forall|k: int| 0 <= k < i ==> self@[k].email != email@,
            decreases n - i,
        {
            if crate::text::str_eq(self.users[i].email.as_str(), email) {
                proof {
                    assert(self@[i as int].email == email@);
                    let c = email_index(self@, email@)->Some_0;
                    if c < i {
                        assert(self@[c].email != email@);
                    } else if c > i {
                        assert(self@[i as int].email != email@);
                    }
                }
                return Some(self.users[i].snapshot());
            }
            i = i + 1;
        }
        None
    }

    /// Registers a user under the identifier `id` at `now`; `None` where the
    /// identifier is taken.
    pub fn create_user_at(&mut self, id: u128, email: String, name: String, now: i64) -> (r: Option<User>)
        requires
            old(self).wf(),
        ensures
            final(self).wf(),
            id_index(old(self)@, id) is Some ==> r is None && final(self)@ == old(self)@,
            id_index(old(self)@, id) is None ==> {
                let v = UserView { id, email: email@, name: name@, created_at: now, updated_at: now };
                &&& r is Some
                &&& r->Some_0@ == v
                &&& final(self)@ == old(self)@.push(v)
            },
    {
        if self.position_by_id(id).is_some() {
            return None;
        }
        let user = User { id, email, name, created_at: now, updated_at: now };
        let copy = user.snapshot();
        let ghost v = user@;
        self.users.push(user);
        proof {
            assert(self@ =~= old(self)@.push(v));
            assert forall|k: int| 0 <= k < old(self)@.len() implies old(self)@[k].id != id by {
                if old(self)@[k].id == id {
                    assert(exists|i: int| 0 <= i < old(self)@.len() && old(self)@[i].id == id);
                }
            }
        }
        Some(copy)
    }

    /// Registers a user under a fresh random identifier, stamped with the
    /// current time; `None` in the unlikely case that the identifier is taken.
    pub fn create_user(&mut self, email: String, name: String) -> (r: Option<User>)
        requires
            old(self).wf(),
        ensures
            final(self).wf(),
            r is None ==> final(self)@ == old(self)@ && old(self)@.len() > 0,
            r is Some ==> {
                let v = r->Some_0@;
                &&& v.email == email@
                &&& v.name == name@
                &&& v.created_at == v.updated_at
                &&& final(self)@ == old(self)@.push(v)
            },
    {
        let id = generate_id();
        let now = now_millis();
        self.create_user_at(id, email, name, now)
    }
}

} // verus!
