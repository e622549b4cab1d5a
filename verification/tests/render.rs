use strbin::aggregate::Aggregate;
use strbin::render::{decimal_text, final_summary_lines, summary_lines};
use strbin::taxonomy::StringType;

fn lines(v: &[&str]) -> Vec<String> {
    v.iter().map(|s| s.to_string()).collect()
}

fn sample() -> Aggregate {
    let mut store = Aggregate::new();
    store.record(StringType::URLString, "http://b".to_string());
    store.record(StringType::IPv4String, "10.0.0.1".to_string());
    store.record(StringType::URLString, "http://a".to_string());
    store.record(StringType::URLString, "http://c".to_string());
    store.record(StringType::EmailString, "a@x.org".to_string());
    store
}

#[test]
fn decimal_text_of_numbers() {
    assert_eq!(decimal_text(0), "0");
    assert_eq!(decimal_text(7), "7");
    assert_eq!(decimal_text(9), "9");
    assert_eq!(decimal_text(10), "10");
    assert_eq!(decimal_text(42), "42");
    assert_eq!(decimal_text(100), "100");
    assert_eq!(decimal_text(12345), "12345");
    assert_eq!(decimal_text(9876543210), "9876543210");
    assert_eq!(decimal_text(usize::MAX), usize::MAX.to_string());
}

#[test]
fn empty_store_renders_nothing() {
    let store = Aggregate::new();
    assert!(summary_lines(&store, false, None).is_empty());
    assert!(summary_lines(&store, true, Some(3)).is_empty());
    assert!(final_summary_lines(&store).is_empty());
}

#[test]
fn sections_are_ordered_by_name() {
    assert_eq!(
        summary_lines(&sample(), false, None),
        lines(&[
            "",
            "Email [1]:",
            "  a@x.org",
            "",
            "IPv4 [1]:",
            "  10.0.0.1",
            "",
            "URL [3]:",
            "  http://b",
            "  http://a",
            "  http://c",
        ])
    );
}

#[test]
fn analyze_shows_counts_only() {
    assert_eq!(
        summary_lines(&sample(), true, None),
        lines(&["", "Email [1]:", "", "IPv4 [1]:", "", "URL [3]:"])
    );
    assert_eq!(
        summary_lines(&sample(), true, Some(1)),
        lines(&["", "Email [1]:", "", "IPv4 [1]:", "", "URL [3]:"])
    );
}

#[test]
fn item_cap_truncates_with_a_notice() {
    assert_eq!(
        summary_lines(&sample(), false, Some(2)),
        lines(&[
            "",
            "Email [1]:",
            "  a@x.org",
            "",
            "IPv4 [1]:",
            "  10.0.0.1",
            "",
            "URL [3]:",
            "  http://b",
            "  http://a",
            "  ... (1 more)",
        ])
    );
    assert_eq!(
        summary_lines(&sample(), false, Some(1)),
        lines(&[
            "",
            "Email [1]:",
            "  a@x.org",
            "",
            "IPv4 [1]:",
            "  10.0.0.1",
            "",
            "URL [3]:",
            "  http://b",
            "  ... (2 more)",
        ])
    );
}

#[test]
fn item_cap_that_is_not_exceeded_changes_nothing() {
    let full = summary_lines(&sample(), false, None);
    assert_eq!(summary_lines(&sample(), false, Some(3)), full);
    assert_eq!(summary_lines(&sample(), false, Some(4)), full);
    assert_eq!(summary_lines(&sample(), false, Some(usize::MAX)), full);
}

#[test]
fn item_cap_of_zero_means_no_limit() {
    assert_eq!(summary_lines(&sample(), false, Some(0)), summary_lines(&sample(), false, None));
    assert_eq!(summary_lines(&sample(), false, Some(0)).len(), 11);
}

#[test]
fn counts_with_several_digits() {
    let mut store = Aggregate::new();
    for n in 0..123 {
        store.record(StringType::RegularString, format!("line {}", n));
    }
    let out = summary_lines(&store, false, Some(10));
    assert_eq!(out.len(), 13);
    assert_eq!(out[1], "Regular [123]:");
    assert_eq!(out[2], "  line 0");
    assert_eq!(out[11], "  line 9");
    assert_eq!(out[12], "  ... (113 more)");
}

#[test]
fn final_summary_lists_kinds_and_usage() {
    assert_eq!(
        final_summary_lines(&sample()),
        lines(&[
            "",
            "",
            "=== Summary ===",
            "Detected types: Email, IPv4, URL",
            "",
            "To filter, use:",
            "  --with <type>     (include only specific types, can repeat)",
            "  --without <type>  (exclude specific types, can repeat)",
            "  --analyze         (show only counts)",
            "  --max-items N     (limit items per type)",
            "  --no-defaults     (disable default filters)",
            "",
            "Examples:",
            "  --with url --with email",
            "  --without errors --without cpp",
        ])
    );
}

#[test]
fn final_summary_with_one_kind_has_no_comma() {
    let mut store = Aggregate::new();
    store.record(StringType::JSONString, "{}".to_string());
    assert_eq!(final_summary_lines(&store)[3], "Detected types: JSON");
}

#[test]
fn final_summary_names_every_kind_in_name_order() {
    let mut store = Aggregate::new();
    let mut all = StringType::all_by_name();
    all.reverse();
    for kind in all {
        store.record(kind, "x".to_string());
    }
    let names: Vec<&str> = StringType::all_by_name().iter().map(|k| k.as_str()).collect();
    assert_eq!(final_summary_lines(&store)[3], format!("Detected types: {}", names.join(", ")));
    assert_eq!(summary_lines(&store, true, None).len(), 64);
}
