//! Looking a user up by identifier in an in-memory store.
//!
//! * [`domain`]: what a user is, and the capability of finding one by identifier.
//! * [`lookup`]: what a lookup means on a sequence of users, and the laws that follow.
//! * [`application`]: the service that answers lookups through a repository.
//! * [`infrastructure`]: a repository that keeps its users in memory.

pub mod application;
pub mod domain;
pub mod infrastructure;
pub mod lookup;

pub use application::{lookup_report, UserService};
pub use domain::{User, UserModel, UserRepository};
pub use infrastructure::InMemoryUserRepository;
