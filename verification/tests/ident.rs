use guide_sync::ident::{is_local_text, IdGenerator, LocalId};

#[test]
fn ids_carry_what_the_sources_gave() {
    let mut g = IdGenerator::new(5);
    let id = g.new_id(Some(1_700_000_000_123), Some(0xdead_beef));
    assert_eq!(id, LocalId { stamp: 1_700_000_000_123, nonce: 0xdead_beef, serial: 5 });
}

#[test]
fn serials_count_up_from_the_seed() {
    let mut g = IdGenerator::new(40);
    let a = g.new_id(Some(1), Some(1));
    let b = g.new_id(Some(1), Some(1));
    let c = g.new_id(Some(1), Some(1));
    assert_eq!((a.serial, b.serial, c.serial), (40, 41, 42));
    assert_ne!(a, b);
    assert_ne!(b, c);
}

#[test]
fn generation_goes_on_without_clock_and_entropy() {
    let mut g = IdGenerator::new(0);
    let a = g.new_id(None, None);
    let b = g.new_id(None, Some(9));
    let c = g.new_id(Some(3), None);
    assert_eq!(a, LocalId { stamp: 0, nonce: 0, serial: 0 });
    assert_eq!(b, LocalId { stamp: 0, nonce: 9, serial: 1 });
    assert_eq!(c, LocalId { stamp: 3, nonce: 0, serial: 2 });
}

#[test]
fn serial_starts_again_after_the_largest() {
    let mut g = IdGenerator::new(u64::MAX);
    assert_eq!(g.new_id(None, None).serial, u64::MAX);
    assert_eq!(g.new_id(None, None).serial, 0);
    assert_eq!(g.new_id(None, None).serial, 1);
}

#[test]
fn many_ids_are_pairwise_different() {
    let mut g = IdGenerator::new(u64::MAX - 10);
    let mut seen: Vec<LocalId> = Vec::new();
    for _ in 0..50 {
        let id = g.new_id(Some(7), Some(7));
        assert!(!seen.contains(&id));
        seen.push(id);
    }
}

#[test]
fn text_of_an_id() {
    let id = LocalId { stamp: 0x1234, nonce: u64::MAX, serial: 10 };
    assert_eq!(id.to_text(), "local-0000000000001234-ffffffffffffffff-000000000000000a");
    let zero = LocalId { stamp: 0, nonce: 0, serial: 0 };
    assert_eq!(zero.to_text(), "local-0000000000000000-0000000000000000-0000000000000000");
    let mixed = LocalId { stamp: 0x0123_4567_89ab_cdef, nonce: 0xfedc_ba98_7654_3210, serial: 255 };
    assert_eq!(mixed.to_text(), "local-0123456789abcdef-fedcba9876543210-00000000000000ff");
}

#[test]
fn text_of_an_id_is_told_from_a_server_id() {
    let mut g = IdGenerator::new(1);
    assert!(is_local_text(&g.new_id(Some(99), None).to_text()));
    assert!(is_local_text("local-"));
    assert!(is_local_text("local-anything"));
    assert!(!is_local_text("local"));
    assert!(!is_local_text("Local-0000"));
    assert!(!is_local_text("4711"));
    assert!(!is_local_text(""));
    assert!(!is_local_text("quest-local-1"));
}

#[test]
fn different_ids_have_different_texts() {
    let a = LocalId { stamp: 1, nonce: 2, serial: 3 };
    let b = LocalId { stamp: 1, nonce: 2, serial: 4 };
    let c = LocalId { stamp: 2, nonce: 1, serial: 3 };
    assert_ne!(a.to_text(), b.to_text());
    assert_ne!(a.to_text(), c.to_text());
    assert_eq!(a.to_text().chars().count(), 56);
}
