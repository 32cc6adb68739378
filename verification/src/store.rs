//! The preference store: at most one record per user, looked up, added and
//! replaced in place, in the order in which users first registered.

use crate::language::Language;
use crate::user::{candidate, User, UserView};
use vstd::prelude::*;
use vstd::string::*;

verus! {

/// The users' preferences, and where they are kept between runs. An empty
/// `path` means that the store lives in memory only.
pub struct UserStore {
    pub users: Vec<User>,
    pub path: String,
}

/// The condition that the store could not be written to its storage.
#[derive(Debug, Clone, Copy, PartialEq, Eq)]
pub struct StorePersistFailure;

/// Whether `i` is the position of the first record of `user_id` in `users`.
pub open spec fn is_first_match(users: Seq<UserView>, user_id: u64, i: int) -> bool {
    &&& 0 <= i < users.len()
    &&& users[i].user_id == user_id
    &&& forall|j: int| 0 <= j < i ==> (#[trigger] users[j]).user_id != user_id
}

/// Whether `users` holds a record of `user_id`.
pub open spec fn contains_id(users: Seq<UserView>, user_id: u64) -> bool {
    exists|i: int| is_first_match(users, user_id, i)
}

/// The position of the first record of `user_id`, where there is one.
pub open spec fn first_index(users: Seq<UserView>, user_id: u64) -> int {
    choose|i: int| is_first_match(users, user_id, i)
}

/// The record that a lookup of `user_id` finds: the first one with that id.
pub open spec fn find(users: Seq<UserView>, user_id: u64) -> Option<UserView> {
    if contains_id(users, user_id) {
        Some(users[first_index(users, user_id)])
    } else {
        None
    }
}

/// The collection after `user` has registered: their record replaced where
/// it stood, or added at the end if they had none.
pub open spec fn registered(users: Seq<UserView>, user: UserView) -> Seq<UserView> {
    if contains_id(users, user.user_id) {
        users.update(first_index(users, user.user_id), user)
    } else {
        users.push(user)
    }
}

/// No two records belong to the same user.
pub open spec fn unique_ids(users: Seq<UserView>) -> bool {
    forall|i: int, j: int|
        0 <= i < users.len() && 0 <= j < users.len() && i != j ==> (#[trigger] users[i]).user_id
            != (#[trigger] users[j]).user_id
}

/// Exactly one record of `users` belongs to `user_id`.
pub open spec fn exactly_one(users: Seq<UserView>, user_id: u64) -> bool {
    exists|i: int|
        0 <= i < users.len() && (#[trigger] users[i]).user_id == user_id && forall|j: int|
            0 <= j < users.len() && (#[trigger] users[j]).user_id == user_id ==> j == i
}

/// How every sentence about a language pair ends: with the two names.
pub open spec fn pair_text(source_name: Seq<char>, target_name: Seq<char>) -> Seq<char> {
    " from "@ + source_name + " to "@ + target_name
}

/// The confirmation of a first registration.
pub open spec fn registered_text(source_name: Seq<char>, target_name: Seq<char>) -> Seq<char> {
    "You have been registered to translate"@ + pair_text(source_name, target_name)
}

/// The confirmation of a changed registration.
pub open spec fn updated_text(source_name: Seq<char>, target_name: Seq<char>) -> Seq<char> {
    "You have been updated to translate"@ + pair_text(source_name, target_name)
}

/// The confirmation that `register` returns on a collection `users`.
pub open spec fn confirmation_text(
    users: Seq<UserView>,
    user_id: u64,
    source_name: Seq<char>,
    target_name: Seq<char>,
) -> Seq<char> {
    if contains_id(users, user_id) {
        updated_text(source_name, target_name)
    } else {
        registered_text(source_name, target_name)
    }
}

/// The sentence that describes what a lookup found.
pub open spec fn status_text(found: Option<UserView>) -> Seq<char> {
    match found {
        Some(user) => "You are registered to translate"@ + pair_text(
            user.source_language.name,
            user.target_language.name,
        ),
        None => "You are not registered"@,
    }
}

/// The first match is the only position that `first_index` can pick.
pub proof fn lemma_first_match_is_first_index(users: Seq<UserView>, user_id: u64, i: int)
    requires
        is_first_match(users, user_id, i),
    ensures
        contains_id(users, user_id),
        first_index(users, user_id) == i,
{
    let k = first_index(users, user_id);
    assert(is_first_match(users, user_id, k));
    if k < i {
        assert(users[k].user_id != user_id);
    }
    if i < k {
        assert(users[i].user_id != user_id);
    }
}

/// A collection in which no record has the id does not contain it.
pub proof fn lemma_no_match_is_absent(users: Seq<UserView>, user_id: u64)
    requires
        forall|j: int| 0 <= j < users.len() ==> (#[trigger] users[j]).user_id != user_id,
    ensures
        !contains_id(users, user_id),
        find(users, user_id).is_none(),
{
    if contains_id(users, user_id) {
        let k = first_index(users, user_id);
        assert(users[k].user_id != user_id);
    }
}

/// Ends the sentence in `text` with the names of the languages of `user`.
fn append_pair(text: &mut String, user: &User)
    ensures
        final(text)@ == old(text)@ + pair_text(
            user@.source_language.name,
            user@.target_language.name,
        ),
{
    text.append(" from ");
    text.append(user.source_language.name.as_str());
    text.append(" to ");
    text.append(user.target_language.name.as_str());
    assert(text@ =~= old(text)@ + pair_text(
        user@.source_language.name,
        user@.target_language.name,
    ));
}

impl View for UserStore {
    type V = Seq<UserView>;

    open spec fn view(&self) -> Seq<UserView> {
        Seq::new(self.users@.len(), |i: int| self.users@[i]@)
    }
}

impl UserStore {
    /// A store is well formed when each user has at most one record and the
    /// languages of every record are well formed.
    pub open spec fn wf(&self) -> bool {
        &&& unique_ids(self@)
        &&& forall|i: int| 0 <= i < self.users@.len() ==> (#[trigger] self.users@[i]).wf()
    }

    /// Builds the store at start-up from what was configured and read.
    /// `path` is the configured storage location, if there is one; `stored`
    /// is the collection read from it, or `None` where it could not be read
    /// as one. Without a location, or without a readable collection, the
    /// store starts empty. What was read is kept as it is, in its order.
    pub fn load(path: Option<String>, stored: Option<Vec<User>>) -> (r: UserStore)
        ensures
            r.users@ == match (path, stored) {
                (Some(_), Some(users)) => users@,
                _ => Seq::<User>::empty(),
            },
            r.path@ == match path {
                Some(p) => p@,
                None => Seq::<char>::empty(),
            },
            path is None || stored is None ==> r@.len() == 0 && r.wf(),
    {
        match path {
            Some(path) => match stored {
                Some(users) => UserStore { users, path },
                None => UserStore { users: Vec::new(), path },
            },
            None => UserStore { users: Vec::new(), path: String::new() },
        }
    }

    /// Whether changes to this store are to be written to storage.
    pub fn is_persistent(&self) -> (r: bool)
        ensures
            r == (self.path@.len() > 0),
    {
        !self.path.as_str().is_empty()
    }

    /// The position of the first record of `user_id`.
    fn position(&self, user_id: u64) -> (r: Option<usize>)
        ensures
            match r {
                Some(i) => is_first_match(self@, user_id, i as int),
                None => !contains_id(self@, user_id),
            },
    {
        let mut i: usize = 0;
        while i < self.users.len()
            invariant
                i <= self.users@.len(),
                forall|j: int| 0 <= j < i ==> (#[trigger] self@[j]).user_id != user_id,
            decreases self.users@.len() - i,
        {
            if self.users[i].user_id == user_id {
                return Some(i);
            }
            i += 1;
        }
        proof {
            lemma_no_match_is_absent(self@, user_id);
        }
        None
    }

    /// Adds `user` at the end of the collection.
    pub fn add_user(&mut self, user: User)
        ensures
            final(self)@ == old(self)@.push(user@),
            final(self).users@ == old(self).users@.push(user),
            final(self).path == old(self).path,
    {
        self.users.push(user);
        assert(self@ =~= old(self)@.push(user@));
    }

    /// Looks up the record of `user_id`. Nothing changes.
    pub fn get_user(&self, user_id: u64) -> (r: Option<&User>)
        ensures
            match r {
                Some(user) => find(self@, user_id) == Some(user@),
                None => find(self@, user_id).is_none(),
            },
    {
        match self.position(user_id) {
            Some(i) => {
                proof {
                    lemma_first_match_is_first_index(self@, user_id, i as int);
                }
                Some(&self.users[i])
            },
            None => None,
        }
    }

    /// Replaces the record of `user.user_id` where it stands.
    pub fn update_user(&mut self, user: User)
        requires
            contains_id(old(self)@, user.user_id),
        ensures
            final(self)@ == old(self)@.update(first_index(old(self)@, user.user_id), user@),
            final(self).users@ == old(self).users@.update(
                first_index(old(self)@, user.user_id),
                user,
            ),
            final(self).path == old(self).path,
    {
        match self.position(user.user_id) {
            Some(i) => {
                proof {
                    lemma_first_match_is_first_index(self@, user.user_id, i as int);
                }
                self.users.set(i, user);
                assert(self@ =~= old(self)@.update(i as int, user@));
            },
            None => {},
        }
    }

    /// Registers the language pair of `user_id`, by the names of the two
    /// languages, and returns the confirmation. A user who has a record keeps
    /// its place and gets the new languages; a new user is added at the end.
    /// Only the store in memory changes: writing it to its storage is the
    /// caller's part, and `dispatch::answer` says when it is due.
    pub fn register(
        &mut self,
        source_language: String,
        target_language: String,
        user_id: u64,
    ) -> (r: String)
        ensures
            final(self)@ == registered(
                old(self)@,
                candidate(user_id, source_language@, target_language@),
            ),
            find(final(self)@, user_id) == Some(
                candidate(user_id, source_language@, target_language@),
            ),
            r@ == confirmation_text(old(self)@, user_id, source_language@, target_language@),
            final(self).path == old(self).path,
            old(self).wf() ==> final(self).wf(),
    {
        let user = User {
            user_id,
            source_language: Language::new(source_language),
            target_language: Language::new(target_language),
        };
        let ghost before = self@;
        let ghost record = user@;
        let known = self.get_user(user_id).is_some();
        let mut text = if known {
            "You have been updated to translate".to_owned()
        } else {
            "You have been registered to translate".to_owned()
        };
        append_pair(&mut text, &user);
        if known {
            self.update_user(user);
        } else {
            self.add_user(user);
        }
        proof {
            lemma_registered_is_found(before, record);
            if old(self).wf() {
                lemma_registered_keeps_unique(before, record);
            }
        }
        text
    }

    /// Describes the registration of `user_id` in a sentence. Nothing changes.
    pub fn user_status(&self, user_id: u64) -> (r: String)
        ensures
            r@ == status_text(find(self@, user_id)),
    {
        match self.get_user(user_id) {
            Some(user) => {
                let mut text = "You are registered to translate".to_owned();
                append_pair(&mut text, user);
                text
            },
            None => "You are not registered".to_owned(),
        }
    }
}

/// After a registration, a lookup of the same user finds the new record.
pub proof fn lemma_registered_is_found(users: Seq<UserView>, user: UserView)
    ensures
        find(registered(users, user), user.user_id) == Some(user),
        registered(users, user).len() == if contains_id(users, user.user_id) {
            users.len()
        } else {
            users.len() + 1
        },
{
    let after = registered(users, user);
    if contains_id(users, user.user_id) {
        let i = first_index(users, user.user_id);
        assert(is_first_match(users, user.user_id, i));
        assert forall|j: int| 0 <= j < i implies (#[trigger] after[j]).user_id != user.user_id by {
            assert(after[j] == users[j]);
        }
        assert(is_first_match(after, user.user_id, i));
        lemma_first_match_is_first_index(after, user.user_id, i);
    } else {
        let i = users.len() as int;
        assert forall|j: int| 0 <= j < i implies (#[trigger] after[j]).user_id != user.user_id by {
            assert(after[j] == users[j]);
            if users[j].user_id == user.user_id {
                lemma_has_match(users, user.user_id, j);
            }
        }
        assert(is_first_match(after, user.user_id, i));
        lemma_first_match_is_first_index(after, user.user_id, i);
    }
}

/// A collection that holds a record of the id at some position contains it.
pub proof fn lemma_has_match(users: Seq<UserView>, user_id: u64, j: int)
    requires
        0 <= j < users.len(),
        users[j].user_id == user_id,
    ensures
        contains_id(users, user_id),
        first_index(users, user_id) <= j,
    decreases j,
{
    if forall|k: int| 0 <= k < j ==> (#[trigger] users[k]).user_id != user_id {
        assert(is_first_match(users, user_id, j));
        lemma_first_match_is_first_index(users, user_id, j);
    } else {
        let k = choose|k: int| 0 <= k < j && (#[trigger] users[k]).user_id == user_id;
        lemma_has_match(users, user_id, k);
    }
}

/// A registration keeps the ids of a collection distinct.
pub proof fn lemma_registered_keeps_unique(users: Seq<UserView>, user: UserView)
    requires
        unique_ids(users),
    ensures
        unique_ids(registered(users, user)),
{
    let after = registered(users, user);
    if contains_id(users, user.user_id) {
        let i = first_index(users, user.user_id);
        assert(is_first_match(users, user.user_id, i));
        assert forall|a: int, b: int|
            0 <= a < after.len() && 0 <= b < after.len() && a != b implies (#[trigger] after[a]).user_id
            != (#[trigger] after[b]).user_id by {
            assert(after[a].user_id == users[a].user_id);
            assert(after[b].user_id == users[b].user_id);
        }
    } else {
        assert forall|a: int, b: int|
            0 <= a < after.len() && 0 <= b < after.len() && a != b implies (#[trigger] after[a]).user_id
            != (#[trigger] after[b]).user_id by {
            if a < users.len() {
                assert(after[a] == users[a]);
                if b == users.len() && users[a].user_id == user.user_id {
                    lemma_has_match(users, user.user_id, a);
                }
            }
            if b < users.len() {
                assert(after[b] == users[b]);
                if a == users.len() && users[b].user_id == user.user_id {
                    lemma_has_match(users, user.user_id, b);
                }
            }
        }
    }
}

} // verus!
