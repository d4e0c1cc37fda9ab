//! The application layer: the service that answers lookups through a repository.

use crate::domain::{found_model, User, UserModel, UserRepository};
use crate::lookup::{first_with_id, has_id};
use vstd::prelude::*;

verus! {

/// Answers lookups by asking a repository. The service knows the repository
/// only by its capability; by default its concrete type is erased.
pub struct UserService<R: UserRepository + ?Sized = dyn UserRepository> {
    repository: Box<R>,
}

impl<R: UserRepository + ?Sized> UserService<R> {
    /// The users within the service's reach: those that its repository holds.
    pub closed spec fn stored(&self) -> Seq<UserModel> {
        self.repository.stored()
    }

    /// Makes a service over the given repository.
    pub fn new(repository: Box<R>) -> (service: Self)
        ensures
            service.stored() == repository.stored(),
    {
        UserService { repository }
    }

    /// Finds the first user with the given identifier in the repository, and
    /// hands the repository's answer on as it is.
    pub fn get_user_by_id(&self, id: i32) -> (found: Option<User>)
        ensures
            found_model(found) == first_with_id(self.stored(), id as int),
            found is Some <==> has_id(self.stored(), id as int),
    {
        self.repository.find_user_by_id(id)
    }
}

/// The line that reports what a lookup gave.
pub open spec fn report_line(found: Option<UserModel>) -> Seq<char> {
    match found {
        Some(user) => "User found: "@ + user.name,
        None => "User not found"@,
    }
}

/// Writes the line that reports what a lookup gave: the user's name where one
/// was found, and that none was found otherwise.
pub fn lookup_report(found: &Option<User>) -> (line: String)
    ensures
        line@ == report_line(found_model(*found)),
{
    match found {
        Some(user) => String::from_str("User found: ").concat(user.name()),
        None => String::from_str("User not found"),
    }
}

} // verus!
