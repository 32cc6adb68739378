use translate_bot::language::Language;
use translate_bot::store::UserStore;
use translate_bot::user::User;

fn user(id: u64, source: &str, target: &str) -> User {
    User {
        user_id: id,
        source_language: Language::new(source.to_string()),
        target_language: Language::new(target.to_string()),
    }
}

fn empty() -> UserStore {
    UserStore::load(None, None)
}

#[test]
fn register_then_status_then_update() {
    let mut store = empty();
    let text = store.register("english".to_string(), "thai".to_string(), 42);
    assert_eq!(text, said("You have been registered", "from english to thai"));
    assert!(text.contains(&said("registered", "from english to thai")));
    assert_eq!(store.user_status(42), said("You are registered", "from english to thai"));
    let text = store.register("german".to_string(), "spanish".to_string(), 42);
    assert_eq!(text, said("You have been updated", "from german to spanish"));
    assert!(text.contains(&said("updated", "from german to spanish")));
    assert_eq!(store.user_status(42), said("You are registered", "from german to spanish"));
    assert_eq!(store.users.len(), 1);
}

#[test]
fn status_of_unknown_user() {
    let store = empty();
    assert_eq!(store.user_status(999), "You are not registered");
    assert!(store.user_status(999).contains("not registered"));
}

#[test]
fn lookup_twice_gives_the_same() {
    let mut store = empty();
    store.register("french".to_string(), "dutch".to_string(), 5);
    let first = store.get_user(5).map(|u| (u.user_id, u.source_language.code.clone(), u.target_language.code.clone()));
    let second = store.get_user(5).map(|u| (u.user_id, u.source_language.code.clone(), u.target_language.code.clone()));
    assert_eq!(first, second);
    assert_eq!(first, Some((5, "fr".to_string(), "nl".to_string())));
    assert!(store.get_user(6).is_none());
    assert!(store.get_user(6).is_none());
}

#[test]
fn registered_codes_are_the_catalogs() {
    let mut store = empty();
    store.register("japanese".to_string(), "korean".to_string(), 1);
    let found = store.get_user(1).unwrap();
    assert_eq!(found.user_id, 1);
    assert_eq!(found.source_language.name, "japanese");
    assert_eq!(found.source_language.code, "ja");
    assert_eq!(found.target_language.name, "korean");
    assert_eq!(found.target_language.code, "ko");
}

#[test]
fn unknown_language_defaults() {
    let mut store = empty();
    let text = store.register("not-a-real-language".to_string(), "french".to_string(), 3);
    assert_eq!(text, said("You have been registered", "from not-a-real-language to french"));
    let found = store.get_user(3).unwrap();
    assert_eq!(found.source_language.code, "en");
    assert_eq!(found.target_language.code, "fr");
    assert_eq!(found.source_language.name, "not-a-real-language");
}

#[test]
fn registering_twice_keeps_one_record() {
    let mut store = empty();
    store.register("english".to_string(), "thai".to_string(), 8);
    store.register("polish".to_string(), "czech".to_string(), 8);
    let count = store.users.iter().filter(|u| u.user_id == 8).count();
    assert_eq!(count, 1);
    let found = store.get_user(8).unwrap();
    assert_eq!(found.source_language.code, "pl");
    assert_eq!(found.target_language.code, "cs");
}

#[test]
fn update_keeps_the_position() {
    let mut store = empty();
    store.register("english".to_string(), "thai".to_string(), 1);
    store.register("english".to_string(), "french".to_string(), 2);
    store.register("english".to_string(), "german".to_string(), 3);
    let text = store.register("greek".to_string(), "hindi".to_string(), 2);
    assert!(text.starts_with("You have been updated"));
    let ids: Vec<u64> = store.users.iter().map(|u| u.user_id).collect();
    assert_eq!(ids, vec![1, 2, 3]);
    assert_eq!(store.users[1].source_language.code, "el");
    assert_eq!(store.users[1].target_language.code, "hi");
    assert_eq!(store.users[0].target_language.code, "th");
    assert_eq!(store.users[2].target_language.code, "de");
}

#[test]
fn registration_leaves_other_users_alone() {
    let mut store = empty();
    store.register("english".to_string(), "thai".to_string(), 1);
    store.register("french".to_string(), "german".to_string(), 2);
    store.register("swedish".to_string(), "turkish".to_string(), 1);
    let other = store.get_user(2).unwrap();
    assert_eq!(other.source_language.code, "fr");
    assert_eq!(other.target_language.code, "de");
    assert_eq!(store.user_status(2), said("You are registered", "from french to german"));
    assert!(store.get_user(3).is_none());
}

#[test]
fn add_user_appends() {
    let mut store = empty();
    store.add_user(user(10, "english", "thai"));
    store.add_user(user(11, "thai", "english"));
    let ids: Vec<u64> = store.users.iter().map(|u| u.user_id).collect();
    assert_eq!(ids, vec![10, 11]);
    assert_eq!(store.get_user(11).unwrap().source_language.code, "th");
}

#[test]
fn update_user_replaces_the_first_record() {
    let mut store = empty();
    store.add_user(user(10, "english", "thai"));
    store.add_user(user(11, "thai", "english"));
    store.update_user(user(11, "danish", "finnish"));
    assert_eq!(store.users.len(), 2);
    assert_eq!(store.users[0].user_id, 10);
    assert_eq!(store.users[1].source_language.code, "da");
    assert_eq!(store.users[1].target_language.code, "fi");
}

#[test]
fn user_clone_keeps_all_fields() {
    let first = user(77, "hebrew", "arabic");
    let copy = first.clone();
    assert_eq!(copy.user_id, 77);
    assert_eq!(copy.source_language.name, "hebrew");
    assert_eq!(copy.source_language.code, "he");
    assert_eq!(copy.target_language.name, "arabic");
    assert_eq!(copy.target_language.code, "ar");
}

#[test]
fn load_without_a_path_is_empty_and_in_memory() {
    let store = UserStore::load(None, Some(vec![user(1, "english", "thai")]));
    assert!(store.users.is_empty());
    assert_eq!(store.path, "");
    assert!(!store.is_persistent());
    assert!(store.get_user(1).is_none());
}

#[test]
fn load_without_contents_starts_empty() {
    let store = UserStore::load(Some("users.json".to_string()), None);
    assert!(store.users.is_empty());
    assert_eq!(store.path, "users.json");
    assert!(store.is_persistent());
    assert!(store.get_user(0).is_none());
    assert!(store.get_user(42).is_none());
    assert!(store.get_user(u64::MAX).is_none());
}

#[test]
fn load_keeps_order_and_content() {
    let stored = vec![user(3, "english", "thai"), user(1, "french", "german"), user(2, "dutch", "polish")];
    let store = UserStore::load(Some("users.json".to_string()), Some(stored));
    let ids: Vec<u64> = store.users.iter().map(|u| u.user_id).collect();
    assert_eq!(ids, vec![3, 1, 2]);
    assert_eq!(store.get_user(1).unwrap().target_language.code, "de");
    assert_eq!(store.user_status(2), said("You are registered", "from dutch to polish"));
}

#[test]
fn lookup_finds_the_first_of_two_records() {
    let stored = vec![user(4, "english", "thai"), user(4, "french", "german")];
    let mut store = UserStore::load(Some("users.json".to_string()), Some(stored));
    assert_eq!(store.get_user(4).unwrap().source_language.code, "en");
    store.register("russian".to_string(), "latvian".to_string(), 4);
    assert_eq!(store.users.len(), 2);
    assert_eq!(store.users[0].source_language.code, "ru");
    assert_eq!(store.users[1].source_language.code, "fr");
}

fn said(what: &str, pair: &str) -> String {
    format!("{} to translate {}", what, pair)
}
