//! The profile store's logic: looking a user's stored profile up and
//! upserting one, keyed by the user's id, last write wins. Reading and
//! writing the backing file is the caller's concern; the rules about what
//! the stored list holds afterwards live here.

use vstd::prelude::*;
use crate::structs::{UserData, UserDataModel, view_seq};
use crate::text::str_eq;

verus! {

/// `i` is the first index of `users` whose record carries `id`.
pub open spec fn is_first_id_match(users: Seq<UserDataModel>, id: Seq<char>, i: int) -> bool {
    &&& 0 <= i < users.len()
    &&& users[i].id == id
    &&& forall|j: int| 0 <= j < i ==> (#[trigger] users[j]).id != id
}

/// Index of the first record with `id`, if any.
pub open spec fn first_id_match(users: Seq<UserDataModel>, id: Seq<char>) -> Option<int> {
    if exists|i: int| is_first_id_match(users, id, i) {
        Some(choose|i: int| is_first_id_match(users, id, i))
    } else {
        None
    }
}

/// Index of the first stored record with the given id.
fn find_user_index(users: &Vec<UserData>, user_id: &str) -> (r: Option<usize>)
    ensures
        match r {
            Some(i) => i < users@.len() && first_id_match(view_seq(users@), user_id@) == Some(
                i as int,
            ),
            None => first_id_match(view_seq(users@), user_id@) is None,
        },
{
    let ghost m = view_seq(users@);
    let n: usize = users.len();
    let mut i: usize = 0;
    while i < n
        invariant
            n == users@.len(),
            m == view_seq(users@),
            0 <= i <= n,
            forall|j: int| 0 <= j < i ==> (#[trigger] m[j]).id != user_id@,
        decreases n - i,
    {
        if str_eq(users[i].id.as_str(), user_id) {
            proof {
                assert(is_first_id_match(m, user_id@, i as int));
                let w = choose|w: int| is_first_id_match(m, user_id@, w);
                assert(w == i as int);
            }
            return Some(i);
        }
        i = i + 1;
    }
    proof {
        if exists|w: int| is_first_id_match(m, user_id@, w) {
            let w = choose|w: int| is_first_id_match(m, user_id@, w);
        }
    }
    None
}

/// The stored profile of the given user: the first record with that id.
pub fn find_user(users: &Vec<UserData>, user_id: &str) -> (r: Option<UserData>)
    ensures
        match first_id_match(view_seq(users@), user_id@) {
            Some(i) => r == Some(users@[i]),
            None => r is None,
        },
{
    match find_user_index(users, user_id) {
        Some(i) => Some(users[i].clone()),
        None => None,
    }
}

/// Stores a profile: the first record with the same id is overwritten,
/// otherwise the record is appended — an upsert, last write wins.
pub fn upsert_user(users: &mut Vec<UserData>, user: UserData)
    ensures
        match first_id_match(view_seq(old(users)@), user@.id) {
            Some(i) => final(users)@ == old(users)@.update(i, user),
            None => final(users)@ == old(users)@.push(user),
        },
{
    match find_user_index(users, user.id.as_str()) {
        Some(i) => {
            users.set(i, user);
        },
        None => {
            users.push(user);
        },
    }
}

} // verus!
