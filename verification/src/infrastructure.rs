//! The infrastructure layer: a repository that keeps its users in memory.

use crate::domain::{User, UserModel, UserRepository};
use crate::lookup::{lookup_at_first_place, lookup_of_absent_id};
use vstd::prelude::*;

verus! {

/// A repository that keeps its users in a list, in the order in which they
/// were added. Nothing is ever removed or changed, and identifiers may repeat.
pub struct InMemoryUserRepository {
    users: Vec<User>,
}

impl View for InMemoryUserRepository {
    type V = Seq<UserModel>;

    /// The users added so far, oldest first.
    closed spec fn view(&self) -> Seq<UserModel> {
        self.users@.map_values(|user: User| user@)
    }
}

impl InMemoryUserRepository {
    /// Makes a repository that holds no user.
    pub fn new() -> (repository: Self)
        ensures
            repository@ == Seq::<UserModel>::empty(),
    {
        InMemoryUserRepository { users: Vec::new() }
    }

    /// Adds a user behind all those added before. This always succeeds: an
    /// identifier that is already there is no obstacle.
    pub fn add_user(&mut self, user: User)
        ensures
            final(self)@ == old(self)@.push(user@),
            final(self)@.len() == old(self)@.len() + 1,
            final(self)@.last() == user@,
            forall|i: int| 0 <= i < old(self)@.len() ==> final(self)@[i] == old(self)@[i],
    {
        self.users.push(user);
    }
}

impl UserRepository for InMemoryUserRepository {
    open spec fn stored(&self) -> Seq<UserModel> {
        self@
    }

    /// Walks the list from the oldest user on and stops at the first match.
    fn find_user_by_id(&self, id: i32) -> (found: Option<User>) {
        let mut i: usize = 0;
        while i < self.users.len()
            invariant
                i <= self.users.len(),
                forall|j: int| 0 <= j < i ==> (#[trigger] self@[j]).id != id,
            decreases self.users.len() - i,
        {
            if self.users[i].id() == id {
                let user = self.users[i].clone();
                proof {
                    lookup_at_first_place(self@, id as int, i as int);
                }
                return Some(user);
            }
            i += 1;
        }
        proof {
            lookup_of_absent_id(self@, id as int);
        }
        None
    }
}

} // verus!
