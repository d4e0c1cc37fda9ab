//! What a lookup by identifier means on a sequence of users, and what follows from it.

use crate::domain::UserModel;
use vstd::prelude::*;

verus! {

/// Whether some user in `users` has `id`.
pub open spec fn has_id(users: Seq<UserModel>, id: int) -> bool {
    exists|i: int| 0 <= i < users.len() && (#[trigger] users[i]).id == id
}

/// Whether `i` is the place of the first user in `users` that has `id`.
pub open spec fn is_first_with_id(users: Seq<UserModel>, id: int, i: int) -> bool {
    &&& 0 <= i < users.len()
    &&& users[i].id == id
    &&& forall|j: int| 0 <= j < i ==> (#[trigger] users[j]).id != id
}

/// The first user in `users` that has `id`, or nothing where none has it.
pub open spec fn first_with_id(users: Seq<UserModel>, id: int) -> Option<UserModel> {
    if exists|i: int| is_first_with_id(users, id, i) {
        Some(users[choose|i: int| is_first_with_id(users, id, i)])
    } else {
        None
    }
}

/// At most one place is the first with a given identifier.
pub proof fn first_place_is_unique(users: Seq<UserModel>, id: int, i: int, j: int)
    requires
        is_first_with_id(users, id, i),
        is_first_with_id(users, id, j),
    ensures
        i == j,
{
    if i < j {
        assert(users[i].id != id);
    } else if j < i {
        assert(users[j].id != id);
    }
}

/// A lookup gives the user at the first place that has the identifier.
pub proof fn lookup_at_first_place(users: Seq<UserModel>, id: int, i: int)
    requires
        is_first_with_id(users, id, i),
    ensures
        first_with_id(users, id) == Some(users[i]),
{
    let chosen = choose|k: int| is_first_with_id(users, id, k);
    first_place_is_unique(users, id, i, chosen);
}

/// Before any place that has the identifier, or at it, lies the first such place.
proof fn first_place_exists(users: Seq<UserModel>, id: int, k: int)
    requires
        0 <= k < users.len(),
        users[k].id == id,
    ensures
        exists|i: int| 0 <= i <= k && is_first_with_id(users, id, i),
    decreases k,
{
    if exists|j: int| 0 <= j < k && (#[trigger] users[j]).id == id {
        let j = choose|j: int| 0 <= j < k && (#[trigger] users[j]).id == id;
        first_place_exists(users, id, j);
        let i = choose|i: int| 0 <= i <= j && is_first_with_id(users, id, i);
        assert(0 <= i <= k && is_first_with_id(users, id, i));
    } else {
        assert(is_first_with_id(users, id, k));
    }
}

/// Whatever users were stored and in whatever order, looking up an identifier
/// that one of them has gives the first of them that has it.
pub proof fn lookup_of_present_id(users: Seq<UserModel>, id: int)
    requires
        has_id(users, id),
    ensures
        exists|i: int| is_first_with_id(users, id, i) && first_with_id(users, id) == Some(users[i]),
{
    let k = choose|k: int| 0 <= k < users.len() && (#[trigger] users[k]).id == id;
    first_place_exists(users, id, k);
    let i = choose|i: int| 0 <= i <= k && is_first_with_id(users, id, i);
    lookup_at_first_place(users, id, i);
}

/// Looking up an identifier that no stored user has gives nothing.
pub proof fn lookup_of_absent_id(users: Seq<UserModel>, id: int)
    requires
        !has_id(users, id),
    ensures
        first_with_id(users, id) is None,
{
    if exists|i: int| is_first_with_id(users, id, i) {
        let i = choose|i: int| is_first_with_id(users, id, i);
        assert(0 <= i < users.len() && users[i].id == id);
    }
}

/// Storing one more user leaves every lookup that found a user as it was; a
/// lookup that found nothing now finds the new user exactly if it has the
/// identifier asked for.
pub proof fn lookup_after_insert(users: Seq<UserModel>, user: UserModel, id: int)
    ensures
        first_with_id(users.push(user), id) == match first_with_id(users, id) {
            Some(earlier) => Some(earlier),
            None => if user.id == id {
                Some(user)
            } else {
                None
            },
        },
{
    let longer = users.push(user);
    let last = users.len() as int;
    if has_id(users, id) {
        lookup_of_present_id(users, id);
        let i = choose|i: int|
            is_first_with_id(users, id, i) && first_with_id(users, id) == Some(users[i]);
        lookup_at_first_place(longer, id, i);
    } else {
        lookup_of_absent_id(users, id);
        if user.id == id {
            lookup_at_first_place(longer, id, last);
        } else {
            lookup_of_absent_id(longer, id);
        }
    }
}

} // verus!
