//! What holds of the store across several operations.

use crate::catalog::code_or_default;
use crate::store::{
    contains_id, exactly_one, find, first_index, is_first_match, lemma_first_match_is_first_index,
    lemma_has_match, lemma_no_match_is_absent, lemma_registered_is_found,
    lemma_registered_keeps_unique, registered, unique_ids,
};
use crate::user::{candidate, UserView};
use vstd::prelude::*;

verus! {

/// Two lookups of the same user in the same collection give the same result:
/// whatever two calls of `get_user` return on an unchanged store is equal.
pub proof fn lookup_is_repeatable(
    users: Seq<UserView>,
    user_id: u64,
    first: Option<UserView>,
    second: Option<UserView>,
)
    requires
        first == find(users, user_id),
        second == find(users, user_id),
    ensures
        first == second,
{
}

/// A lookup in an empty collection finds nothing, whoever is looked up.
pub proof fn empty_store_finds_nothing(users: Seq<UserView>, user_id: u64)
    requires
        users.len() == 0,
    ensures
        find(users, user_id) is None,
{
    lemma_no_match_is_absent(users, user_id);
}

/// After a user has registered with two language names, a lookup finds a
/// record of that user whose codes are the catalog's for those names, or the
/// default code where the catalog does not list a name.
pub proof fn register_then_lookup(
    users: Seq<UserView>,
    user_id: u64,
    source_name: Seq<char>,
    target_name: Seq<char>,
)
    ensures
        ({
            let after = registered(users, candidate(user_id, source_name, target_name));
            &&& find(after, user_id) is Some
            &&& find(after, user_id).unwrap().user_id == user_id
            &&& find(after, user_id).unwrap().source_language.name == source_name
            &&& find(after, user_id).unwrap().target_language.name == target_name
            &&& find(after, user_id).unwrap().source_language.code == code_or_default(source_name)
            &&& find(after, user_id).unwrap().target_language.code == code_or_default(target_name)
        }),
{
    lemma_registered_is_found(users, candidate(user_id, source_name, target_name));
}

/// Registering the same user twice leaves exactly one record of that user,
/// which holds the languages of the second registration; the second
/// registration adds no record.
pub proof fn register_twice_keeps_one(users: Seq<UserView>, first: UserView, second: UserView)
    requires
        unique_ids(users),
        first.user_id == second.user_id,
    ensures
        ({
            let once = registered(users, first);
            let twice = registered(once, second);
            &&& twice.len() == once.len()
            &&& exactly_one(twice, second.user_id)
            &&& find(twice, second.user_id) == Some(second)
            &&& unique_ids(twice)
        }),
{
    let once = registered(users, first);
    let twice = registered(once, second);
    lemma_registered_is_found(users, first);
    lemma_registered_keeps_unique(users, first);
    lemma_registered_is_found(once, second);
    lemma_registered_keeps_unique(once, second);
    let i = first_index(once, second.user_id);
    assert(is_first_match(once, second.user_id, i));
    assert(twice[i].user_id == second.user_id);
}

/// A registration leaves the records of all other users as a lookup finds them.
pub proof fn register_leaves_others(users: Seq<UserView>, user: UserView, other_id: u64)
    requires
        other_id != user.user_id,
    ensures
        find(registered(users, user), other_id) == find(users, other_id),
{
    let after = registered(users, user);
    if contains_id(users, other_id) {
        let k = first_index(users, other_id);
        assert(is_first_match(users, other_id, k));
        assert forall|j: int| 0 <= j < k implies (#[trigger] after[j]).user_id != other_id by {
            if contains_id(users, user.user_id) && j == first_index(users, user.user_id) {
            } else {
                assert(after[j] == users[j]);
            }
        }
        assert(after[k] == users[k]);
        assert(is_first_match(after, other_id, k));
        lemma_first_match_is_first_index(after, other_id, k);
    } else {
        if contains_id(after, other_id) {
            let k = first_index(after, other_id);
            assert(is_first_match(after, other_id, k));
            if contains_id(users, user.user_id) {
                assert(after[k] == users[k]);
            } else if k < users.len() {
                assert(after[k] == users[k]);
            }
            lemma_has_match(users, other_id, k);
        }
    }
}

} // verus!
