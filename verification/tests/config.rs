use guide_sync::config::{Config, Setting};
use guide_sync::error::GuideError;

fn setting(key: &str, value: &str) -> Setting {
    Setting { key: key.to_string(), value: value.to_string() }
}

fn defaults() -> Config {
    Config::from_settings(vec![setting("lang", "en"), setting("fontSize", "14"), setting("showDone", "true")])
}

#[test]
fn new_config_is_empty() {
    let c = Config::new();
    assert_eq!(c.len(), 0);
    assert_eq!(c.get("lang"), None);
    assert!(c.settings().is_empty());
}

#[test]
fn set_then_get() {
    let mut c = Config::new();
    c.set("lang".to_string(), "fr".to_string());
    assert_eq!(c.get("lang"), Some(&"fr".to_string()));
    assert_eq!(c.get("Lang"), None);
    assert_eq!(c.len(), 1);
}

#[test]
fn set_replaces_the_value_of_a_known_name() {
    let mut c = defaults();
    c.set("fontSize".to_string(), "18".to_string());
    assert_eq!(c.len(), 3);
    assert_eq!(c.get("fontSize"), Some(&"18".to_string()));
    assert_eq!(c.settings(), vec![setting("lang", "en"), setting("fontSize", "18"), setting("showDone", "true")]);
}

#[test]
fn from_settings_lets_the_last_occurrence_count() {
    let c = Config::from_settings(vec![setting("a", "1"), setting("b", "2"), setting("a", "3")]);
    assert_eq!(c.len(), 2);
    assert_eq!(c.get("a"), Some(&"3".to_string()));
    assert_eq!(c.get("b"), Some(&"2".to_string()));
}

#[test]
fn load_fills_in_defaults_for_missing_names() {
    let stored = Config::from_settings(vec![setting("lang", "fr")]);
    let c = Config::load(&stored, &defaults());
    assert_eq!(c.get("lang"), Some(&"fr".to_string()));
    assert_eq!(c.get("fontSize"), Some(&"14".to_string()));
    assert_eq!(c.get("showDone"), Some(&"true".to_string()));
    assert_eq!(c.len(), 3);
}

#[test]
fn load_keeps_names_it_does_not_know() {
    let stored = Config::from_settings(vec![setting("fromTheFuture", "42"), setting("fontSize", "20")]);
    let c = Config::load(&stored, &defaults());
    assert_eq!(c.get("fromTheFuture"), Some(&"42".to_string()));
    assert_eq!(c.get("fontSize"), Some(&"20".to_string()));
    assert_eq!(c.get("lang"), Some(&"en".to_string()));
    assert_eq!(c.len(), 4);
}

#[test]
fn load_of_empty_storage_gives_the_defaults() {
    let c = Config::load(&Config::new(), &defaults());
    assert_eq!(c.settings(), defaults().settings());
}

#[test]
fn load_twice_is_load_once() {
    let stored = Config::from_settings(vec![setting("x", "1"), setting("lang", "de")]);
    let once = Config::load(&stored, &defaults());
    let twice = Config::load(&once, &defaults());
    let mut a = once.settings();
    let mut b = twice.settings();
    a.sort_by(|x, y| x.key.cmp(&y.key));
    b.sort_by(|x, y| x.key.cmp(&y.key));
    assert_eq!(a, b);
}

#[test]
fn settings_round_trip() {
    let c = defaults();
    let again = Config::from_settings(c.settings());
    assert_eq!(again.settings(), c.settings());
    assert_eq!(c.clone().settings(), c.settings());
}

#[test]
fn config_adopt_takes_the_copy_only_when_it_was_saved() {
    let mut c = defaults();
    let mut next = c.clone();
    next.set("lang".to_string(), "fr".to_string());
    assert_eq!(c.adopt(next.clone(), Err(GuideError::StorageWrite)), Err(GuideError::StorageWrite));
    assert_eq!(c.get("lang"), Some(&"en".to_string()));
    assert_eq!(c.adopt(next, Ok(())), Ok(()));
    assert_eq!(c.get("lang"), Some(&"fr".to_string()));
}
