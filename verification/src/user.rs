//! One user's registered language pair.

use crate::language::{language_of, Language, LanguageView};
use vstd::prelude::*;

verus! {

/// A user of the chat platform and the languages they translate between.
#[derive(Debug)]
pub struct User {
    pub user_id: u64,
    pub source_language: Language,
    pub target_language: Language,
}

/// What a `User` is, as plain values.
pub struct UserView {
    pub user_id: u64,
    pub source_language: LanguageView,
    pub target_language: LanguageView,
}

/// The record that a registration of `user_id` with the two names stores.
pub open spec fn candidate(user_id: u64, source_name: Seq<char>, target_name: Seq<char>) -> UserView {
    UserView {
        user_id: user_id,
        source_language: language_of(source_name),
        target_language: language_of(target_name),
    }
}

impl View for User {
    type V = UserView;

    open spec fn view(&self) -> UserView {
        UserView {
            user_id: self.user_id,
            source_language: self.source_language@,
            target_language: self.target_language@,
        }
    }
}

impl User {
    /// A user is well formed when both of their languages are.
    pub open spec fn wf(&self) -> bool {
        self.source_language.wf() && self.target_language.wf()
    }

    /// A copy of this user.
    pub fn clone(&self) -> (r: User)
        ensures
            r@ == self@,
    {
        User {
            user_id: self.user_id,
            source_language: self.source_language.clone(),
            target_language: self.target_language.clone(),
        }
    }
}

} // verus!
