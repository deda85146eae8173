//! The user store for the control channel: usernames mapped to credentials,
//! with unique, non-empty usernames.

use vstd::prelude::*;

use crate::error::{McError, McResult};
use crate::text::str_eq;

verus! {

/// One user's record.
#[derive(Debug)]
pub struct User {
    pub password: Option<String>,
}

/// Message carried by the error `add_user` returns for a username that is
/// already taken.
pub open spec fn user_exists_msg(name: Seq<char>) -> Seq<char> {
    "User "@ + name + " already exists"@
}

/// The users known to the control channel, keyed by username. The list
/// order is insertion order; well-formedness says no username occurs twice.
pub struct UserStore {
    pub users: Vec<(String, User)>,
}

impl UserStore {
    /// No two entries share a username.
    pub open spec fn wf(self) -> bool {
        forall|i: int, j: int|
            0 <= i < j < self.users@.len() ==> self.users@[i].0@ != self.users@[j].0@
    }

    /// Whether some entry carries the username `name`.
    pub open spec fn contains_user(self, name: Seq<char>) -> bool {
        exists|i: int| 0 <= i < self.users@.len() && self.users@[i].0@ == name
    }

    pub fn new() -> (r: Self)
        ensures
            r.users@.len() == 0,
            r.wf(),
    {
        UserStore { users: Vec::new() }
    }

    /// Number of stored users.
    pub fn num_users(&self) -> (r: usize)
        ensures
            r == self.users@.len(),
    {
        self.users.len()
    }

    /// Looks a user up by name: some user exactly when the name is stored,
    /// and then the user recorded under it.
    pub fn find_user(&self, username: &str) -> (r: Option<&User>)
        requires
            self.wf(),
        ensures
            r is Some <==> self.contains_user(username@),
            r matches Some(u) ==> exists|i: int|
                0 <= i < self.users@.len() && self.users@[i].0@ == username@ && *u
                    == self.users@[i].1,
    {
        let n = self.users.len();
        let mut i: usize = 0;
        while i < n
            invariant
                n == self.users@.len(),
                i <= n,
                forall|j: int| 0 <= j < i ==> self.users@[j].0@ != username@,
            decreases n - i,
        {
            if str_eq(self.users[i].0.as_str(), username) {
                return Some(&self.users[i].1);
            }
            i += 1;
        }
        None
    }

    /// Adds a user. An empty username is rejected, as is one already taken;
    /// either rejection leaves the store untouched. Otherwise the record is
    /// appended.
    pub fn add_user(&mut self, username: String, password: String) -> (r: McResult<()>)
        requires
            old(self).wf(),
        ensures
            final(self).wf(),
            username@.len() == 0 ==> (r matches Err(McError::InvalidOp(m)) && m@
                == "Cannot have empty username"@) && *final(self) == *old(self),
            username@.len() > 0 && old(self).contains_user(username@) ==> (r matches Err(
                McError::InvalidOp(m),
            ) && m@ == user_exists_msg(username@)) && *final(self) == *old(self),
            username@.len() > 0 && !old(self).contains_user(username@) ==> r is Ok
                && final(self).users@ == old(self).users@.push(
                (username, User { password: Some(password) }),
            ),
    {
        if username.as_str().is_empty() {
            return Err(McError::InvalidOp(String::from_str("Cannot have empty username")));
        }
        if self.find_user(username.as_str()).is_some() {
            let mut msg = String::from_str("User ");
            msg.append(username.as_str());
            msg.append(" already exists");
            return Err(McError::InvalidOp(msg));
        }
        self.users.push((username, User { password: Some(password) }));
        Ok(())
    }
}

impl Default for UserStore {
    fn default() -> (r: Self)
        ensures
            r.users@.len() == 0,
            r.wf(),
    {
        UserStore::new()
    }
}

} // verus!
