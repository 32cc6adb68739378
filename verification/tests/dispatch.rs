use translate_bot::dispatch::{
    answer, classify, failure_reply, persisted_reply, translation_reply, translation_request, Action, Command,
    MessageKind, TranslationFailure,
};
use translate_bot::store::{StorePersistFailure, UserStore};

fn register(source: &str, target: &str) -> Command {
    Command::Register { source_language: source.to_string(), target_language: target.to_string() }
}

#[test]
fn classify_by_the_first_character() {
    assert_eq!(classify("/help"), MessageKind::Command);
    assert_eq!(classify("/"), MessageKind::Command);
    assert_eq!(classify("/register english thai"), MessageKind::Command);
    assert_eq!(classify("hello"), MessageKind::FreeText);
    assert_eq!(classify(""), MessageKind::FreeText);
    assert_eq!(classify(" /help"), MessageKind::FreeText);
    assert_eq!(classify("a/b"), MessageKind::FreeText);
}

#[test]
fn unregistered_sender_gets_the_default_pair() {
    let store = UserStore::load(None, None);
    let request = translation_request(&store, 12345, "bonjour");
    assert_eq!(request.q, "bonjour");
    assert_eq!(request.source_language, "auto");
    assert_eq!(request.target_language, "en");
    assert!(store.users.is_empty());
    assert!(store.get_user(12345).is_none());
}

#[test]
fn registered_sender_gets_their_pair() {
    let mut store = UserStore::load(None, None);
    store.register("english".to_string(), "thai".to_string(), 42);
    let request = translation_request(&store, 42, "good morning");
    assert_eq!(request.q, "good morning");
    assert_eq!(request.source_language, "en");
    assert_eq!(request.target_language, "th");
    let other = translation_request(&store, 43, "good morning");
    assert_eq!(other.source_language, "auto");
    assert_eq!(other.target_language, "en");
    assert_eq!(store.users.len(), 1);
}

#[test]
fn register_command_lowers_the_names() {
    let mut store = UserStore::load(None, None);
    let action = answer(&mut store, register("English", "THAI"), 42);
    match action {
        Action::Reply(text) => {
            assert_eq!(text, sentence("You have been registered", "from english to thai"))
        }
        other => panic!("{:?}", other),
    }
    let found = store.get_user(42).unwrap();
    assert_eq!(found.source_language.name, "english");
    assert_eq!(found.source_language.code, "en");
    assert_eq!(found.target_language.name, "thai");
    assert_eq!(found.target_language.code, "th");
}

#[test]
fn lowering_touches_ascii_letters_only() {
    let mut store = UserStore::load(None, None);
    let action = answer(&mut store, register("\u{c9}COSSAIS-1", "Fran\u{c7}ais"), 1);
    match action {
        Action::Reply(text) => assert_eq!(
            text,
            sentence("You have been registered", "from \u{c9}cossais-1 to fran\u{c7}ais")
        ),
        other => panic!("{:?}", other),
    }
}

#[test]
fn register_command_on_a_persistent_store_asks_for_a_write() {
    let mut store = UserStore::load(Some("users.json".to_string()), None);
    match answer(&mut store, register("german", "spanish"), 7) {
        Action::SaveThenReply(text) => {
            assert_eq!(text, sentence("You have been registered", "from german to spanish"))
        }
        other => panic!("{:?}", other),
    }
    match answer(&mut store, register("German", "French"), 7) {
        Action::SaveThenReply(text) => {
            assert_eq!(text, sentence("You have been updated", "from german to french"))
        }
        other => panic!("{:?}", other),
    }
    assert_eq!(store.users.len(), 1);
    assert_eq!(store.path, "users.json");
}

#[test]
fn status_command_reports_and_changes_nothing() {
    let mut store = UserStore::load(Some("users.json".to_string()), None);
    match answer(&mut store, Command::Status, 999) {
        Action::Reply(text) => assert_eq!(text, "You are not registered"),
        other => panic!("{:?}", other),
    }
    assert!(store.users.is_empty());
    store.register("english".to_string(), "thai".to_string(), 999);
    match answer(&mut store, Command::Status, 999) {
        Action::Reply(text) => {
            assert_eq!(text, sentence("You are registered", "from english to thai"))
        }
        other => panic!("{:?}", other),
    }
    assert_eq!(store.users.len(), 1);
}

#[test]
fn help_command_changes_nothing() {
    let mut store = UserStore::load(None, None);
    assert!(matches!(answer(&mut store, Command::Help, 1), Action::Help));
    assert!(store.users.is_empty());
}

#[test]
fn confirmation_is_sent_only_after_a_write() {
    assert_eq!(persisted_reply("done".to_string(), Ok(())), "done");
    assert_eq!(
        persisted_reply("done".to_string(), Err(StorePersistFailure)),
        "Something went wrong"
    );
    assert_eq!(failure_reply(), "Something went wrong");
}

#[test]
fn translation_is_sent_as_a_reply() {
    let reply = translation_reply(Ok("hello".to_string()));
    assert_eq!(reply.text, "hello");
    assert!(reply.as_reply);
}

#[test]
fn failed_translation_gives_the_failure_text() {
    let reply = translation_reply(Err(TranslationFailure));
    assert_eq!(reply.text, "Something went wrong");
    assert!(!reply.as_reply);
}

fn sentence(what: &str, pair: &str) -> String {
    format!("{} to translate {}", what, pair)
}
