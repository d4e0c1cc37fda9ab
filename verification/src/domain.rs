//! The domain layer: users, and the capability of finding one by identifier.

use crate::lookup::{first_with_id, has_id};
use vstd::prelude::*;

verus! {

/// The mathematical value of a user: an identifier and a name.
pub struct UserModel {
    pub id: int,
    pub name: Seq<char>,
}

/// A user record. Identifier and name are fixed when the record is made.
#[derive(Debug)]
pub struct User {
    id: i32,
    name: String,
}

impl View for User {
    type V = UserModel;

    closed spec fn view(&self) -> UserModel {
        UserModel { id: self.id as int, name: self.name@ }
    }
}

impl Clone for User {
    /// A copy with the same identifier and the same name.
    fn clone(&self) -> (copy: Self)
        ensures
            copy == *self,
            copy@ == self@,
    {
        User { id: self.id, name: self.name.clone() }
    }
}

impl User {
    /// Makes the user with the given identifier and name.
    pub fn new(id: i32, name: String) -> (user: Self)
        ensures
            user@.id == id,
            user@.name == name@,
    {
        User { id, name }
    }

    /// The user's identifier.
    pub fn id(&self) -> (id: i32)
        ensures
            id == self@.id,
    {
        self.id
    }

    /// The user's name.
    pub fn name(&self) -> (name: &str)
        ensures
            name@ == self@.name,
    {
        self.name.as_str()
    }
}

/// The value of what a lookup hands back: the found user's value, or nothing.
pub open spec fn found_model(found: Option<User>) -> Option<UserModel> {
    match found {
        Some(user) => Some(user@),
        None => None,
    }
}

/// The capability of finding a user by identifier, whatever the storage behind it.
pub trait UserRepository {
    /// The users that the repository holds, in the order in which they were stored.
    spec fn stored(&self) -> Seq<UserModel>;

    /// Finds the first stored user with the given identifier. Absence is an
    /// ordinary answer, not a failure; the repository is left as it was.
    fn find_user_by_id(&self, id: i32) -> (found: Option<User>)
        ensures
            found_model(found) == first_with_id(self.stored(), id as int),
            found is Some <==> has_id(self.stored(), id as int),
    ;
}

} // verus!
