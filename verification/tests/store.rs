use guide_sync::content::{Guide, GuideCatalogEntry, Item};
use guide_sync::error::GuideError;
use guide_sync::store::GuideStore;

fn item(id: u64, checked: bool) -> Item {
    Item { id, label: format!("step {}", id), checked }
}

fn guide(id: &str, version: &str, items: Vec<Item>) -> Guide {
    Guide::new(id.to_string(), format!("guide {}", id), Some(version.to_string()), items).unwrap()
}

fn two_guides() -> GuideStore {
    GuideStore::open(vec![
        guide("a", "1", vec![item(1, true), item(2, false)]),
        guide("b", "1", vec![item(1, false), item(2, false)]),
    ])
    .unwrap()
}

fn marks(store: &GuideStore, id: &str) -> Vec<(u64, bool)> {
    store.find(id).unwrap().items().iter().map(|it| (it.id, it.checked)).collect()
}

#[test]
fn new_store_is_empty() {
    let s = GuideStore::new();
    assert_eq!(s.len(), 0);
    assert!(s.load_guides().is_empty());
    assert!(s.find("a").is_none());
}

#[test]
fn open_keeps_records_in_order_with_their_marks() {
    let s = two_guides();
    assert_eq!(s.len(), 2);
    let loaded = s.load_guides();
    assert_eq!(loaded[0], guide("a", "1", vec![item(1, true), item(2, false)]));
    assert_eq!(loaded[1], guide("b", "1", vec![item(1, false), item(2, false)]));
    assert_eq!(s.guides(), &loaded);
}

#[test]
fn open_refuses_records_that_share_a_guide_id() {
    let r = GuideStore::open(vec![guide("a", "1", vec![]), guide("b", "1", vec![]), guide("a", "2", vec![])]);
    assert_eq!(r.err(), Some(GuideError::StorageRead));
}

#[test]
fn save_guide_adds_an_unknown_guide_at_the_end() {
    let mut s = two_guides();
    s.save_guide(guide("c", "5", vec![item(9, true)]));
    assert_eq!(s.len(), 3);
    assert_eq!(s.load_guides()[2], guide("c", "5", vec![item(9, true)]));
    assert_eq!(marks(&s, "a"), vec![(1, true), (2, false)]);
}

#[test]
fn save_guide_replaces_the_record_with_the_same_id() {
    let mut s = two_guides();
    s.save_guide(guide("a", "2", vec![item(7, true)]));
    assert_eq!(s.len(), 2);
    let loaded = s.load_guides();
    assert_eq!(loaded[0], guide("a", "2", vec![item(7, true)]));
    assert_eq!(loaded[1], guide("b", "1", vec![item(1, false), item(2, false)]));
}

#[test]
fn toggle_round_trip() {
    let mut s = two_guides();
    let before = s.load_guides();
    assert_eq!(s.toggle_item("a", 2), Ok(true));
    assert_eq!(s.load_guides()[0], guide("a", "1", vec![item(1, true), item(2, true)]));
    assert_eq!(s.load_guides()[1], before[1]);
    assert_eq!(s.toggle_item("a", 2), Ok(false));
    assert_eq!(s.load_guides(), before);
}

#[test]
fn toggle_of_a_checked_item_unchecks_it() {
    let mut s = two_guides();
    assert_eq!(s.toggle_item("a", 1), Ok(false));
    assert_eq!(marks(&s, "a"), vec![(1, false), (2, false)]);
}

#[test]
fn toggle_of_unknown_guide_is_not_found() {
    let mut s = two_guides();
    let before = s.load_guides();
    assert_eq!(s.toggle_item("zz", 1), Err(GuideError::NotFound));
    assert_eq!(s.load_guides(), before);
}

#[test]
fn toggle_of_unknown_item_is_not_found() {
    let mut s = two_guides();
    let before = s.load_guides();
    assert_eq!(s.toggle_item("a", 99), Err(GuideError::NotFound));
    assert_eq!(s.load_guides(), before);
}

#[test]
fn toggles_on_two_guides_do_not_interfere() {
    let mut first = two_guides();
    assert_eq!(first.toggle_item("a", 2), Ok(true));
    assert_eq!(first.toggle_item("b", 1), Ok(true));
    let mut second = two_guides();
    assert_eq!(second.toggle_item("b", 1), Ok(true));
    assert_eq!(second.toggle_item("a", 2), Ok(true));
    assert_eq!(first.load_guides(), second.load_guides());
    assert_eq!(marks(&first, "a"), vec![(1, true), (2, true)]);
    assert_eq!(marks(&first, "b"), vec![(1, true), (2, false)]);
}

#[test]
fn sync_merges_into_the_local_copy() {
    let mut s = two_guides();
    let fetched = guide("a", "2", vec![item(1, false), item(2, false), item(3, false)]);
    let got = s.sync_guide(Ok(fetched)).unwrap();
    assert_eq!(got, guide("a", "2", vec![item(1, true), item(2, false), item(3, false)]));
    assert_eq!(s.find("a"), Some(&got));
    assert_eq!(s.len(), 2);
    assert_eq!(marks(&s, "b"), vec![(1, false), (2, false)]);
}

#[test]
fn sync_of_an_unknown_guide_adds_it_unchecked() {
    let mut s = two_guides();
    let got = s.sync_guide(Ok(guide("n", "1", vec![item(1, true), item(2, false)]))).unwrap();
    assert_eq!(got, guide("n", "1", vec![item(1, false), item(2, false)]));
    assert_eq!(s.len(), 3);
    assert_eq!(s.load_guides()[2], got);
}

#[test]
fn failed_fetch_leaves_the_store_untouched() {
    let mut s = two_guides();
    let before = s.load_guides();
    assert_eq!(s.sync_guide(Err(GuideError::Network)), Err(GuideError::Network));
    assert_eq!(s.sync_guide(Err(GuideError::Decode)), Err(GuideError::Decode));
    assert_eq!(s.sync_guide(Err(GuideError::NotFound)), Err(GuideError::NotFound));
    assert_eq!(s.load_guides(), before);
}

#[test]
fn syncing_the_same_answer_twice_changes_nothing_more() {
    let mut s = two_guides();
    s.sync_guide(Ok(guide("a", "2", vec![item(2, false), item(1, false), item(3, false)]))).unwrap();
    let once = s.load_guides();
    s.sync_guide(Ok(guide("a", "2", vec![item(2, false), item(1, false), item(3, false)]))).unwrap();
    assert_eq!(s.load_guides(), once);
}

#[test]
fn entries_give_id_and_version_of_each_guide() {
    let mut s = two_guides();
    s.save_guide(Guide::new("c".to_string(), "t".to_string(), None, vec![]).unwrap());
    assert_eq!(
        s.entries(),
        vec![
            GuideCatalogEntry { id: "a".to_string(), version: Some("1".to_string()) },
            GuideCatalogEntry { id: "b".to_string(), version: Some("1".to_string()) },
            GuideCatalogEntry { id: "c".to_string(), version: None },
        ]
    );
}

#[test]
fn store_clone_is_independent() {
    let s = two_guides();
    let mut t = s.clone();
    assert_eq!(t.toggle_item("a", 1), Ok(false));
    assert_eq!(marks(&s, "a"), vec![(1, true), (2, false)]);
    assert_eq!(marks(&t, "a"), vec![(1, false), (2, false)]);
}

#[test]
fn store_adopt_takes_the_copy_only_when_it_was_saved() {
    let mut s = two_guides();
    let before = s.load_guides();
    let mut next = s.clone();
    assert_eq!(next.toggle_item("b", 2), Ok(true));
    let changed = next.load_guides();
    assert_eq!(s.adopt(next.clone(), Err(GuideError::StorageWrite)), Err(GuideError::StorageWrite));
    assert_eq!(s.load_guides(), before);
    assert_eq!(s.adopt(next, Ok(())), Ok(()));
    assert_eq!(s.load_guides(), changed);
}
