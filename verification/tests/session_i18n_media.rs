use pinepods_web::i18n::{available_languages, is_bundled_language, I18n, I18nError, LanguageSwitch, SourceKind};
use pinepods_web::media::{ping, PingRequest, PingResponse};
use pinepods_web::session::authentication_plan;

fn pairs(v: &[(&str, &str)]) -> Vec<(String, String)> {
    v.iter().map(|(a, b)| (a.to_string(), b.to_string())).collect()
}

#[test]
fn signed_in_session_stays() {
    let plan = authentication_plan("/home", Some("true".to_string()));
    assert_eq!(plan.storage_writes, pairs(&[("requested_route", "/home")]));
    assert_eq!(plan.redirect_to, None);
}

#[test]
fn other_sessions_are_sent_to_login() {
    for flag in [None, Some("false".to_string()), Some("TRUE".to_string()), Some("".to_string())] {
        let plan = authentication_plan("/queue", flag);
        assert_eq!(plan.storage_writes, pairs(&[("requested_route", "/queue"), ("isAuthenticated", "false")]));
        assert_eq!(plan.redirect_to, Some("/".to_string()));
    }
}

const EN: &str = "hello = Hello!\nbye = Goodbye\n";
const ES: &str = "hello = ¡Hola!\n";

#[test]
fn messages_and_fallback() {
    let mut i18n = I18n::new(EN.to_string()).expect("English bundle");
    assert_eq!(i18n.current_language(), "en");
    assert_eq!(i18n.get_message("hello"), "Hello!");
    assert_eq!(i18n.get_message("missing-key"), "missing-key");
    assert!(i18n.has_language("en"));
    assert!(!i18n.has_language("es"));

    assert_eq!(i18n.set_language("es"), LanguageSwitch::SourceNeeded);
    assert_eq!(i18n.current_language(), "en");
    i18n.set_language_from_source("es", ES.to_string(), SourceKind::File).unwrap();
    assert_eq!(i18n.current_language(), "es");
    assert_eq!(i18n.get_message("hello"), "¡Hola!");
    assert_eq!(i18n.get_message("bye"), "bye");

    assert!(i18n.has_language("en"));
    assert!(i18n.has_language("es"));
    assert_eq!(i18n.set_language("en"), LanguageSwitch::Switched);
    assert_eq!(i18n.get_message("bye"), "Goodbye");
}

#[test]
fn invalid_language_code_changes_nothing() {
    let mut i18n = I18n::new(EN.to_string()).unwrap();
    let r = i18n.set_language_from_source("not a language!", ES.to_string(), SourceKind::File);
    assert!(matches!(r, Err(I18nError::InvalidLanguageCode(_))));
    assert_eq!(i18n.current_language(), "en");
    assert!(!i18n.has_language("not a language!"));
    assert!(matches!(i18n.load_language("x", ES.to_string(), SourceKind::File), Err(I18nError::InvalidLanguageCode(_))));
}

#[test]
fn reloading_replaces_a_bundle() {
    let mut i18n = I18n::new(EN.to_string()).unwrap();
    i18n.load_language("en", "hello = Hi again\n".to_string(), SourceKind::File).unwrap();
    assert_eq!(i18n.get_message("hello"), "Hi again");
    assert_eq!(i18n.get_message("bye"), "bye");
}

#[test]
fn built_in_sources_only_for_built_in_languages() {
    let mut i18n = I18n::new(EN.to_string()).unwrap();
    let r = i18n.load_language("it", "hello = Ciao\n".to_string(), SourceKind::BuiltIn);
    assert!(matches!(r, Err(I18nError::LanguageNotSupported)));
    assert!(!i18n.has_language("it"));
    let r = i18n.set_language_from_source("it", "hello = Ciao\n".to_string(), SourceKind::BuiltIn);
    assert!(matches!(r, Err(I18nError::LanguageNotSupported)));
    assert_eq!(i18n.current_language(), "en");
    i18n.load_language("it", "hello = Ciao\n".to_string(), SourceKind::File).unwrap();
    i18n.set_language_from_source("fr", "hello = Bonjour\n".to_string(), SourceKind::BuiltIn).unwrap();
    assert_eq!(i18n.get_message("hello"), "Bonjour");
    assert_eq!(i18n.get_message("no such key!"), "no such key!");
}

#[test]
fn bundle_keeps_what_parses() {
    let i18n = I18n::new("hello = Hello!\n!!! broken line\nbye = Goodbye\n".to_string()).unwrap();
    assert_eq!(i18n.get_message("hello"), "Hello!");
    assert_eq!(i18n.get_message("bye"), "Goodbye");
}

#[test]
fn english_with_clashing_ids_is_refused() {
    assert!(I18n::new("a = one\na = two\n".to_string()).is_none());
}

#[test]
fn refused_code_carries_the_parser_reason() {
    let mut i18n = I18n::new(EN.to_string()).unwrap();
    match i18n.load_language("x", ES.to_string(), SourceKind::File) {
        Err(I18nError::InvalidLanguageCode(reason)) => {
            assert_eq!(reason, "Parser error: The given language subtag is invalid")
        },
        other => panic!("unexpected result: {:?}", other),
    }
    assert!(!i18n.has_language("x"));
}

#[test]
fn load_reports_clashing_ids_and_keeps_the_first() {
    let mut i18n = I18n::new(EN.to_string()).unwrap();
    assert_eq!(i18n.load_language("es", ES.to_string(), SourceKind::File).unwrap(), true);
    assert_eq!(i18n.load_language("de", "a = eins\na = zwei\n".to_string(), SourceKind::File).unwrap(), false);
    assert_eq!(i18n.set_language_from_source("de", String::new(), SourceKind::File).unwrap(), true);
    assert_eq!(i18n.get_message("a"), "eins");
}

#[test]
fn loading_twice_gives_the_same_bundle() {
    let mut i18n = I18n::new(EN.to_string()).unwrap();
    let first = i18n.load_language("es", ES.to_string(), SourceKind::File).unwrap();
    let second = i18n.load_language("es", ES.to_string(), SourceKind::File).unwrap();
    assert_eq!(first, second);
    assert_eq!(i18n.set_language("es"), LanguageSwitch::Switched);
    assert_eq!(i18n.get_message("hello"), "¡Hola!");
    assert_eq!(i18n.get_message("bye"), "bye");
    assert!(i18n.has_language("en"));
}

#[test]
fn language_in_use_is_always_loaded() {
    let mut i18n = I18n::new(EN.to_string()).unwrap();
    let in_use = |i: &I18n| i.has_language(i.current_language());
    assert!(in_use(&i18n));
    assert!(i18n.set_language_from_source("not a language!", ES.to_string(), SourceKind::File).is_err());
    assert!(in_use(&i18n));
    assert_eq!(i18n.set_language("fr"), LanguageSwitch::SourceNeeded);
    assert!(in_use(&i18n));
    i18n.load_language("fr", "hello = Bonjour\n".to_string(), SourceKind::BuiltIn).unwrap();
    assert!(in_use(&i18n));
    assert_eq!(i18n.current_language(), "en");
    assert_eq!(i18n.set_language("fr"), LanguageSwitch::Switched);
    assert!(in_use(&i18n));
}

const ITEMS: &str = "items = { 1 ->\n    [one] one item\n   *[other] many items\n}\n";

#[test]
fn bundle_is_made_for_its_language() {
    let mut i18n = I18n::new(ITEMS.to_string()).unwrap();
    assert_eq!(i18n.get_message("items"), "one item");
    i18n.set_language_from_source("ja", ITEMS.to_string(), SourceKind::File).unwrap();
    assert_eq!(i18n.get_message("items"), "many items");
}

#[test]
fn languages_on_offer() {
    assert_eq!(
        available_languages(),
        vec![("en", "English"), ("es", "Español"), ("fr", "Français"), ("de", "Deutsch")]
    );
    assert!(is_bundled_language("fr"));
    assert!(!is_bundled_language("it"));
    assert!(!is_bundled_language("EN"));
}

#[test]
fn ping_echoes() {
    assert_eq!(ping(PingRequest { value: Some("pong?".to_string()) }), PingResponse { value: Some("pong?".to_string()) });
    assert_eq!(ping(PingRequest { value: None }).value, None);
}
