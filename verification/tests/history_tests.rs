use ntrans::history::{stamp_of_millis, History};

#[test]
fn add_dedup_and_cap() {
    let mut h = History::fresh(3);
    h.add("a".into(), "一".into(), "en".into(), "zh-CN".into(), "google".into());
    h.add("b".into(), "二".into(), "en".into(), "zh-CN".into(), "google".into());
    h.add("c".into(), "三".into(), "en".into(), "zh-CN".into(), "google".into());
    h.add("d".into(), "四".into(), "en".into(), "zh-CN".into(), "google".into());
    assert_eq!(h.entries().len(), 3);
    assert_eq!(h.entries()[0].source, "d");
    h.add("b".into(), "二".into(), "en".into(), "zh-CN".into(), "google".into());
    assert_eq!(h.entries().len(), 3);
    assert_eq!(h.entries()[0].source, "b");
}

#[test]
fn empty_ignored() {
    let mut h = History::fresh(10);
    h.add("   ".into(), "".into(), "en".into(), "zh".into(), "x".into());
    assert!(h.entries().is_empty());
}

#[test]
fn entry_fields_and_id() {
    let mut h = History::fresh(10);
    h.add_at("hi".into(), "你好".into(), "en".into(), "zh-CN".into(), "Google".into(), 1700000000000, "2023-11-14 22:13".into());
    let e = &h.entries()[0];
    assert_eq!(e.ts, 1700000000000);
    assert_eq!(e.at, "2023-11-14 22:13");
    assert_eq!(e.engine, "Google");
    assert_eq!(e.id, format!("1700000000000-{:x}", 1700000000000u64 ^ 0));
    h.add_at("x".into(), "y".into(), "en".into(), "zh-CN".into(), "Google".into(), -5, "t".into());
    assert_eq!(h.entries()[0].id, format!("-5-{:x}", 5u64 ^ 1));
    assert!(h.is_dirty());
    assert!(h.flush());
    assert!(!h.is_dirty());
    assert!(!h.flush());
}

#[test]
fn add_uses_clock() {
    let mut h = History::fresh(5);
    h.add("a".into(), "b".into(), "en".into(), "zh-CN".into(), "g".into());
    let e = &h.entries()[0];
    assert!(e.ts > 0);
    assert_eq!(e.at.len(), 16);
    assert!(e.id.starts_with(&e.ts.to_string()));
}

#[test]
fn same_texts_other_languages_are_repeats() {
    let mut h = History::fresh(5);
    h.add("a".into(), "b".into(), "en".into(), "zh-CN".into(), "g".into());
    h.add("c".into(), "d".into(), "en".into(), "zh-CN".into(), "g".into());
    h.flush();
    h.add("a".into(), "b".into(), "fr".into(), "ja".into(), "other".into());
    assert_eq!(h.entries().len(), 2);
    assert_eq!(h.entries()[0].source, "a");
    assert_eq!(h.entries()[1].source, "c");
    // The moved entry is kept as it was recorded.
    assert_eq!(h.entries()[0].from, "en");
    assert_eq!(h.entries()[0].to, "zh-CN");
    assert_eq!(h.entries()[0].engine, "g");
    assert!(h.is_dirty());
}

#[test]
fn remove_and_clear() {
    let mut h = History::fresh(5);
    h.add_at("a".into(), "1".into(), "en".into(), "zh-CN".into(), "g".into(), 1, "t".into());
    h.add_at("b".into(), "2".into(), "en".into(), "zh-CN".into(), "g".into(), 2, "t".into());
    h.flush();
    let id = h.entries()[1].id.clone();
    h.remove("no-such-id");
    assert!(!h.is_dirty());
    h.remove(&id);
    assert!(h.is_dirty());
    assert_eq!(h.entries().len(), 1);
    assert_eq!(h.entries()[0].source, "b");
    h.flush();
    h.clear();
    assert!(h.entries().is_empty());
    assert!(h.is_dirty());
    h.flush();
    h.clear();
    assert!(!h.is_dirty());
}

#[test]
fn capacity_rules() {
    let mut h = History::fresh(0);
    assert_eq!(h.capacity(), 1);
    h.set_capacity(50_000);
    assert_eq!(h.capacity(), 10_000);
    let mut h = History::fresh(4);
    for i in 0..4 {
        h.add_at(format!("s{i}"), "t".into(), "en".into(), "zh-CN".into(), "g".into(), i, "t".into());
    }
    h.flush();
    h.set_capacity(4);
    assert!(!h.is_dirty());
    h.set_capacity(2);
    assert_eq!(h.entries().len(), 2);
    assert_eq!(h.entries()[0].source, "s3");
    assert!(h.is_dirty());
    let loaded = History::load(h.entries().clone(), 1);
    assert_eq!(loaded.entries().len(), 1);
    assert!(!loaded.is_dirty());
    let zero = History::load(h.entries().clone(), 0);
    assert_eq!(zero.entries().len(), 0);
    assert_eq!(zero.capacity(), 1);
}

#[test]
fn clock_reading_to_stamp() {
    assert_eq!(stamp_of_millis(Some(1_700_000_000_000)), 1_700_000_000_000);
    assert_eq!(stamp_of_millis(None), 0);
    assert_eq!(stamp_of_millis(Some(u128::from(u64::MAX))), -1);
    assert_eq!(stamp_of_millis(Some(1u128 << 64 | 7)), 7);
}
