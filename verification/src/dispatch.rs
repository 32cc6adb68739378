//! What is decided for each incoming message: whether it is a command, which
//! languages a text is translated between, and what is answered.

use crate::store::{
    confirmation_text, find, registered, status_text, StorePersistFailure, UserStore,
};
use crate::text::{ascii_lowercase, begins_with, lower, starts_with_char};
use crate::user::{candidate, UserView};
use vstd::prelude::*;

verus! {

/// The two kinds of message.
#[derive(Debug, Clone, Copy, PartialEq, Eq, Structural)]
pub enum MessageKind {
    /// The text begins with the command prefix.
    Command,
    /// Anything else: a text to translate.
    FreeText,
}

/// A command, already parsed.
#[derive(Debug)]
pub enum Command {
    Help,
    Register { source_language: String, target_language: String },
    Status,
}

/// A `Command` as plain values.
pub enum CommandView {
    Help,
    Register { source_language: Seq<char>, target_language: Seq<char> },
    Status,
}

impl View for Command {
    type V = CommandView;

    open spec fn view(&self) -> CommandView {
        match self {
            Command::Help => CommandView::Help,
            Command::Register { source_language, target_language } => CommandView::Register {
                source_language: source_language@,
                target_language: target_language@,
            },
            Command::Status => CommandView::Status,
        }
    }
}

/// What the caller is to do after a command has been handled.
#[derive(Debug)]
pub enum Action {
    /// Send the list of commands.
    Help,
    /// Send this text.
    Reply(String),
    /// Write the store to its storage, then send what `persisted_reply` makes
    /// of this text and of the outcome of the write.
    SaveThenReply(String),
}

/// An `Action` as plain values.
pub enum ActionView {
    Help,
    Reply(Seq<char>),
    SaveThenReply(Seq<char>),
}

impl View for Action {
    type V = ActionView;

    open spec fn view(&self) -> ActionView {
        match self {
            Action::Help => ActionView::Help,
            Action::Reply(text) => ActionView::Reply(text@),
            Action::SaveThenReply(text) => ActionView::SaveThenReply(text@),
        }
    }
}

/// What is sent to the translation provider.
#[derive(Debug)]
pub struct TranslationRequest {
    pub q: String,
    pub source_language: String,
    pub target_language: String,
}

/// A `TranslationRequest` as plain values.
pub struct TranslationRequestView {
    pub q: Seq<char>,
    pub source_language: Seq<char>,
    pub target_language: Seq<char>,
}

impl View for TranslationRequest {
    type V = TranslationRequestView;

    open spec fn view(&self) -> TranslationRequestView {
        TranslationRequestView {
            q: self.q@,
            source_language: self.source_language@,
            target_language: self.target_language@,
        }
    }
}

/// The condition that the provider gave no translation.
#[derive(Debug, Clone, Copy, PartialEq, Eq)]
pub struct TranslationFailure;

/// The answer to a text that was sent for translation.
#[derive(Debug)]
pub struct Reply {
    pub text: String,
    /// Whether the answer is sent as a reply to the message it answers.
    pub as_reply: bool,
}

/// The character with which a command begins.
pub open spec fn command_prefix() -> char {
    '/'
}

/// What is said to the user when anything failed.
pub open spec fn failure_text() -> Seq<char> {
    "Something went wrong"@
}

/// The codes of the source and the target language for a sender: those of
/// their record, or detection of the source and English where they have none.
pub open spec fn language_pair(found: Option<UserView>) -> (Seq<char>, Seq<char>) {
    match found {
        Some(user) => (user.source_language.code, user.target_language.code),
        None => ("auto"@, "en"@),
    }
}

/// The request that goes out for `text` from a sender whose lookup gave `found`.
pub open spec fn request_for(found: Option<UserView>, text: Seq<char>) -> TranslationRequestView {
    TranslationRequestView {
        q: text,
        source_language: language_pair(found).0,
        target_language: language_pair(found).1,
    }
}

/// The collection after `command` of `user_id` has been handled.
pub open spec fn users_after(users: Seq<UserView>, command: CommandView, user_id: u64) -> Seq<
    UserView,
> {
    match command {
        CommandView::Register { source_language, target_language } => registered(
            users,
            candidate(user_id, lower(source_language), lower(target_language)),
        ),
        _ => users,
    }
}

/// The action that handling `command` of `user_id` asks for, on a collection
/// `users` that is written to storage or not.
pub open spec fn action_for(
    users: Seq<UserView>,
    persistent: bool,
    command: CommandView,
    user_id: u64,
) -> ActionView {
    match command {
        CommandView::Help => ActionView::Help,
        CommandView::Register { source_language, target_language } => {
            let text = confirmation_text(
                users,
                user_id,
                lower(source_language),
                lower(target_language),
            );
            if persistent {
                ActionView::SaveThenReply(text)
            } else {
                ActionView::Reply(text)
            }
        },
        CommandView::Status => ActionView::Reply(status_text(find(users, user_id))),
    }
}

/// The text that is sent when anything failed, a command that could not be
/// read included.
pub fn failure_reply() -> (r: String)
    ensures
        r@ == failure_text(),
{
    "Something went wrong".to_owned()
}

/// Tells a command from a text to translate.
pub fn classify(text: &str) -> (r: MessageKind)
    ensures
        r == if begins_with(text@, command_prefix()) {
            MessageKind::Command
        } else {
            MessageKind::FreeText
        },
{
    if starts_with_char(text, '/') {
        MessageKind::Command
    } else {
        MessageKind::FreeText
    }
}

/// Handles a command of `user_id`. The names of a registration are put in
/// lower case before they are looked up; only a registration changes the
/// store, and it asks for a write where the store has a storage location.
pub fn answer(store: &mut UserStore, command: Command, user_id: u64) -> (r: Action)
    ensures
        r@ == action_for(old(store)@, old(store).path@.len() > 0, command@, user_id),
        final(store)@ == users_after(old(store)@, command@, user_id),
        final(store).path == old(store).path,
        !(command is Register) ==> *final(store) == *old(store),
        old(store).wf() ==> final(store).wf(),
{
    match command {
        Command::Help => Action::Help,
        Command::Register { source_language, target_language } => {
            let text = store.register(
                ascii_lowercase(source_language.as_str()),
                ascii_lowercase(target_language.as_str()),
                user_id,
            );
            if store.is_persistent() {
                Action::SaveThenReply(text)
            } else {
                Action::Reply(text)
            }
        },
        Command::Status => Action::Reply(store.user_status(user_id)),
    }
}

/// The reply to a registration once the store has been written, or not.
/// A confirmation is sent only for what was written.
pub fn persisted_reply(confirmation: String, saved: Result<(), StorePersistFailure>) -> (r: String)
    ensures
        r@ == if saved is Ok {
            confirmation@
        } else {
            failure_text()
        },
{
    match saved {
        Ok(_) => confirmation,
        Err(_) => failure_reply(),
    }
}

/// Builds the request for a text of `user_id`: between their registered
/// languages, or with the default pair where they have none. The store is
/// only read.
pub fn translation_request(store: &UserStore, user_id: u64, text: &str) -> (r: TranslationRequest)
    ensures
        r@ == request_for(find(store@, user_id), text@),
        r@.q == text@,
        find(store@, user_id) is None ==> r@.source_language == "auto"@ && r@.target_language
            == "en"@,
{
    match store.get_user(user_id) {
        Some(user) => TranslationRequest {
            q: text.to_owned(),
            source_language: user.source_language.code.clone(),
            target_language: user.target_language.code.clone(),
        },
        None => TranslationRequest {
            q: text.to_owned(),
            source_language: "auto".to_owned(),
            target_language: "en".to_owned(),
        },
    }
}

/// Turns the provider's outcome into the answer: the translation, as a reply
/// to the message it translates, or the failure text. The text that was sent
/// is never handed back.
pub fn translation_reply(outcome: Result<String, TranslationFailure>) -> (r: Reply)
    ensures
        match outcome {
            Ok(translation) => r.text@ == translation@ && r.as_reply,
            Err(_) => r.text@ == failure_text() && !r.as_reply,
        },
{
    match outcome {
        Ok(translation) => Reply { text: translation, as_reply: true },
        Err(_) => Reply { text: failure_reply(), as_reply: false },
    }
}

} // verus!
