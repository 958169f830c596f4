use guide_sync::content::{Guide, GuideCatalogEntry, GuideSummary};
use guide_sync::store::GuideStore;
use guide_sync::sync::{is_stale, list_guides, unlisted_guides};

fn local(id: &str, version: Option<&str>) -> Guide {
    Guide::new(id.to_string(), "t".to_string(), version.map(|v| v.to_string()), vec![]).unwrap()
}

fn entry(id: &str, version: Option<&str>) -> GuideCatalogEntry {
    GuideCatalogEntry { id: id.to_string(), version: version.map(|v| v.to_string()) }
}

fn summary(id: &str, version: Option<&str>, stale: bool) -> GuideSummary {
    GuideSummary { id: id.to_string(), version: version.map(|v| v.to_string()), stale }
}

#[test]
fn same_version_is_fresh() {
    let store = GuideStore::open(vec![local("g", Some("2"))]).unwrap();
    assert!(!is_stale(&entry("g", Some("2")), &store));
}

#[test]
fn differing_version_is_stale() {
    let store = GuideStore::open(vec![local("g", Some("2"))]).unwrap();
    assert!(is_stale(&entry("g", Some("3")), &store));
    assert!(is_stale(&entry("g", Some("1")), &store));
    assert!(is_stale(&entry("g", Some("")), &store));
}

#[test]
fn missing_remote_version_is_stale() {
    let store = GuideStore::open(vec![local("g", Some("2")), local("h", None)]).unwrap();
    assert!(is_stale(&entry("g", None), &store));
    assert!(is_stale(&entry("h", None), &store));
}

#[test]
fn missing_local_version_is_stale() {
    let store = GuideStore::open(vec![local("g", None)]).unwrap();
    assert!(is_stale(&entry("g", Some("2")), &store));
}

#[test]
fn missing_local_copy_is_stale() {
    let store = GuideStore::open(vec![local("g", Some("2"))]).unwrap();
    assert!(is_stale(&entry("other", Some("2")), &store));
    assert!(is_stale(&entry("g", Some("2")), &GuideStore::new()));
}

#[test]
fn list_guides_follows_the_catalogue() {
    let store = GuideStore::open(vec![local("b", Some("1")), local("a", Some("4")), local("x", Some("1"))]).unwrap();
    let remote = vec![entry("a", Some("4")), entry("b", Some("2")), entry("c", Some("1")), entry("d", None)];
    assert_eq!(
        list_guides(&remote, &store),
        vec![
            summary("a", Some("4"), false),
            summary("b", Some("2"), true),
            summary("c", Some("1"), true),
            summary("d", None, true),
        ]
    );
}

#[test]
fn list_guides_of_an_empty_catalogue_is_empty() {
    let store = GuideStore::open(vec![local("b", Some("1"))]).unwrap();
    assert!(list_guides(&vec![], &store).is_empty());
}

#[test]
fn unlisted_guides_are_named_and_kept() {
    let store = GuideStore::open(vec![local("b", Some("1")), local("a", Some("4")), local("x", Some("1"))]).unwrap();
    let remote = vec![entry("a", Some("4")), entry("c", Some("1"))];
    assert_eq!(unlisted_guides(&remote, &store), vec!["b".to_string(), "x".to_string()]);
    assert_eq!(store.len(), 3);
    assert!(unlisted_guides(&remote, &GuideStore::new()).is_empty());
}
