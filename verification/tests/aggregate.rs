use strbin::aggregate::Aggregate;
use strbin::taxonomy::StringType;

#[test]
fn new_store_is_empty() {
    let store = Aggregate::new();
    for kind in StringType::all_by_name() {
        assert_eq!(store.count(kind), 0);
        assert!(store.texts_of(kind).is_empty());
    }
}

#[test]
fn record_adds_a_new_text() {
    let mut store = Aggregate::new();
    store.record(StringType::URLString, "http://a".to_string());
    assert_eq!(store.count(StringType::URLString), 1);
    assert!(store.contains(StringType::URLString, &"http://a".to_string()));
    assert!(!store.contains(StringType::URLString, &"http://b".to_string()));
    assert!(!store.contains(StringType::EmailString, &"http://a".to_string()));
    assert_eq!(store.count(StringType::EmailString), 0);
}

#[test]
fn record_ignores_a_text_already_there() {
    let mut store = Aggregate::new();
    store.record(StringType::URLString, "x".to_string());
    store.record(StringType::URLString, "y".to_string());
    store.record(StringType::URLString, "x".to_string());
    store.record(StringType::URLString, "x".to_string());
    store.record(StringType::URLString, "y".to_string());
    assert_eq!(store.texts_of(StringType::URLString), &vec!["x".to_string(), "y".to_string()]);
}

#[test]
fn kinds_are_kept_apart() {
    let mut store = Aggregate::new();
    store.record(StringType::HexString, "abc".to_string());
    store.record(StringType::GitHashString, "abc".to_string());
    store.record(StringType::HexString, "def".to_string());
    assert_eq!(store.texts_of(StringType::HexString), &vec!["abc".to_string(), "def".to_string()]);
    assert_eq!(store.texts_of(StringType::GitHashString), &vec!["abc".to_string()]);
    assert_eq!(store.count(StringType::Base64String), 0);
}

#[test]
fn texts_keep_the_order_of_first_recording() {
    let mut store = Aggregate::new();
    for t in ["c", "a", "b", "a", "c", "d"] {
        store.record(StringType::RegularString, t.to_string());
    }
    let expected: Vec<String> = ["c", "a", "b", "d"].iter().map(|t| t.to_string()).collect();
    assert_eq!(store.texts_of(StringType::RegularString), &expected);
    assert_eq!(store.count(StringType::RegularString), 4);
}

#[test]
fn no_text_is_held_twice_after_many_records() {
    let mut store = Aggregate::new();
    for round in 0..5 {
        for n in 0..20 {
            store.record(StringType::IPv4String, format!("10.0.0.{}", (n * 7 + round) % 10));
            store.record(StringType::EmailString, format!("u{}@x.org", n % 3));
        }
    }
    for kind in StringType::all_by_name() {
        let texts = store.texts_of(kind);
        for i in 0..texts.len() {
            for j in 0..i {
                assert_ne!(texts[i], texts[j]);
            }
        }
    }
    assert_eq!(store.count(StringType::IPv4String), 10);
    assert_eq!(store.count(StringType::EmailString), 3);
}

#[test]
fn empty_text_is_a_text() {
    let mut store = Aggregate::new();
    store.record(StringType::RegularString, String::new());
    store.record(StringType::RegularString, String::new());
    assert_eq!(store.texts_of(StringType::RegularString), &vec![String::new()]);
}
