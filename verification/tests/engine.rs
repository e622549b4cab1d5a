use strbin::aggregate::Aggregate;
use strbin::engine::{process_line, record_candidates, report_lines, run};
use strbin::filter::Args;
use strbin::patterns::Battery;
use strbin::taxonomy::{StringType, TypeFilter};

fn args(with: Vec<TypeFilter>, without: Vec<TypeFilter>, no_defaults: bool) -> Args {
    Args { analyze: false, max_items: None, no_defaults, with, without }
}

fn defaults() -> Args {
    args(vec![], vec![], false)
}

fn input(v: &[&str]) -> Vec<String> {
    v.iter().map(|s| s.to_string()).collect()
}

fn battery() -> Battery {
    Battery::new().unwrap()
}

fn section_of<'a>(report: &'a [String], header_prefix: &str) -> Vec<&'a str> {
    let mut out = Vec::new();
    let mut inside = false;
    for line in report {
        if inside {
            if line.starts_with("  ") {
                out.push(line.as_str());
            } else {
                break;
            }
        } else if line.starts_with(header_prefix) {
            inside = true;
        }
    }
    out
}

#[test]
fn empty_input_gives_an_empty_report() {
    let b = battery();
    assert!(run(&b, &defaults(), &Vec::new()).is_empty());
    assert!(run(&b, &args(vec![TypeFilter::Url], vec![], true), &Vec::new()).is_empty());
}

#[test]
fn ip_address_line_with_defaults() {
    let b = battery();
    let report = run(&b, &defaults(), &input(&["192.168.1.1 connected"]));
    assert!(report.contains(&"IPv4 [1]:".to_string()));
    assert_eq!(section_of(&report, "IPv4 ["), vec!["  192.168.1.1"]);
    assert!(!report.iter().any(|l| l.starts_with("Regular [")));
    assert_eq!(
        report[..6].to_vec(),
        input(&["", "IPv4 [1]:", "  192.168.1.1", "", "SemVer [1]:", "  192.168.1"])
    );
    assert_eq!(report[9], "Detected types: IPv4, SemVer");
    assert_eq!(report.len(), 21);
}

#[test]
fn json_is_suppressed_by_default() {
    let b = battery();
    let line = "{\"status\":\"ok\"}";
    assert!(run(&b, &defaults(), &input(&[line])).is_empty());
}

#[test]
fn json_appears_without_defaults() {
    let b = battery();
    let line = "{\"status\":\"ok\"}";
    let report = run(&b, &args(vec![], vec![], true), &input(&[line]));
    assert_eq!(report[..3].to_vec(), input(&["", "JSON [1]:", "  {\"status\":\"ok\"}"]));
    assert_eq!(report[6], "Detected types: JSON");
}

#[test]
fn json_appears_when_asked_for() {
    let b = battery();
    let line = "{\"status\":\"ok\"}";
    let report = run(&b, &args(vec![TypeFilter::Json], vec![], false), &input(&[line]));
    assert_eq!(report[..3].to_vec(), input(&["", "JSON [1]:", "  {\"status\":\"ok\"}"]));
    let grouped = run(&b, &args(vec![TypeFilter::DataFormats], vec![], false), &input(&[line]));
    assert_eq!(grouped[..3].to_vec(), input(&["", "JSON [1]:", "  {\"status\":\"ok\"}"]));
}

#[test]
fn git_hash_appears_when_asked_for() {
    let b = battery();
    let h = "356a192b7913b04c54574d18c28d46e6395428ab";
    let line = format!("commit {}", h);
    let report = run(&b, &args(vec![TypeFilter::GitHash], vec![], false), &vec![line.clone()]);
    assert_eq!(section_of(&report, "GitHash ["), vec![format!("  {}", h).as_str()]);
    assert_eq!(report[6], "Detected types: GitHash");
    let by_default = run(&b, &defaults(), &vec![line]);
    assert!(section_of(&by_default, "GitHash [").is_empty());
    assert_eq!(by_default[6], "Detected types: SHA1Hash");
}

#[test]
fn hash_lengths_with_defaults() {
    let b = battery();
    let h64 = "e3b0c44298fc1c149afbf4c8996fb92427ae41e4649b934ca495991b7852b855";
    let report = run(&b, &defaults(), &input(&[h64]));
    assert_eq!(report[6], "Detected types: SHA256Hash");
    let h32 = "d41d8cd98f00b204e9800998ecf8427e";
    let report = run(&b, &defaults(), &input(&[h32]));
    assert_eq!(report[6], "Detected types: MD5Hash");
}

#[test]
fn include_list_overrides_exclude_list() {
    let b = battery();
    let a = args(vec![TypeFilter::Network], vec![TypeFilter::Ipv4, TypeFilter::Network], false);
    let report = run(&b, &a, &input(&["192.168.1.1 connected", "plain words"]));
    assert_eq!(report[..3].to_vec(), input(&["", "IPv4 [1]:", "  192.168.1.1"]));
    assert_eq!(report[6], "Detected types: IPv4");
}

#[test]
fn exclude_list_removes_kinds() {
    let b = battery();
    let a = args(vec![], vec![TypeFilter::SemVer, TypeFilter::Regular], false);
    let report = run(&b, &a, &input(&["192.168.1.1 connected", "plain words"]));
    assert_eq!(report[6], "Detected types: IPv4");
}

#[test]
fn repeated_texts_are_reported_once() {
    let b = battery();
    let report = run(
        &b,
        &defaults(),
        &input(&["10.0.0.1 up", "10.0.0.1 down", "10.0.0.1 and 10.0.0.1", "10.0.0.2 up"]),
    );
    assert_eq!(section_of(&report, "IPv4 ["), vec!["  10.0.0.1", "  10.0.0.2"]);
    assert!(report.contains(&"IPv4 [2]:".to_string()));
    assert_eq!(section_of(&report, "SemVer ["), vec!["  10.0.0"]);
}

#[test]
fn same_text_from_two_detectors_is_kept_per_kind() {
    let b = battery();
    let h = "d41d8cd98f00b204e9800998ecf8427e";
    let report = run(&b, &args(vec![], vec![], true), &input(&[h, h]));
    assert_eq!(report[15], "Detected types: Base64, GitHash, Hex, MD5Hash");
    for name in ["Base64 [", "GitHash [", "Hex [", "MD5Hash ["] {
        assert_eq!(section_of(&report, name), vec![format!("  {}", h).as_str()]);
    }
}

#[test]
fn running_twice_gives_the_same_report() {
    let b = battery();
    let lines = input(&[
        "GET https://example.com/a?b=1 from 10.1.2.3",
        "user bob@example.org logged in at 2024-05-06 07:08:09",
        "plain",
        "plain",
        "{\"k\": [1, 2]}",
        "thread 'main' panicked at src/lib.rs:1:1",
    ]);
    let a = Args {
        analyze: false,
        max_items: Some(2),
        no_defaults: true,
        with: vec![],
        without: vec![TypeFilter::Path],
    };
    let first = run(&b, &a, &lines);
    let second = run(&b, &a, &lines);
    assert_eq!(first, second);
    assert!(!first.is_empty());
    let other = Battery::new().unwrap();
    assert_eq!(run(&other, &a, &lines), first);
}

#[test]
fn regular_lines_are_reported() {
    let b = battery();
    let report = run(&b, &defaults(), &input(&["hello", "world", "hello"]));
    assert_eq!(report[..4].to_vec(), input(&["", "Regular [2]:", "  hello", "  world"]));
}

#[test]
fn analyze_and_cap_come_from_the_arguments() {
    let b = battery();
    let lines = input(&["a", "b", "c"]);
    let counts = Args { analyze: true, max_items: None, no_defaults: false, with: vec![], without: vec![] };
    assert_eq!(run(&b, &counts, &lines)[..2].to_vec(), input(&["", "Regular [3]:"]));
    assert_eq!(run(&b, &counts, &lines)[2], "");
    let capped = Args { analyze: false, max_items: Some(1), no_defaults: false, with: vec![], without: vec![] };
    assert_eq!(
        run(&b, &capped, &lines)[..4].to_vec(),
        input(&["", "Regular [3]:", "  a", "  ... (2 more)"])
    );
}

#[test]
fn line_by_line_equals_a_whole_run() {
    let b = battery();
    let a = defaults();
    let lines = input(&["see http://x.org", "10.0.0.1", "words", "see http://x.org"]);
    let mut store = Aggregate::new();
    for line in &lines {
        process_line(&b, &a, &mut store, line);
    }
    assert_eq!(report_lines(&store, &a), run(&b, &a, &lines));
    assert_eq!(store.count(StringType::URLString), 1);
    assert_eq!(store.count(StringType::IPv4String), 1);
    assert_eq!(store.count(StringType::RegularString), 1);
}

#[test]
fn only_accepted_candidates_are_recorded() {
    let mut store = Aggregate::new();
    let candidates = vec![
        (StringType::JSONString, "{}".to_string()),
        (StringType::URLString, "http://x".to_string()),
        (StringType::HexString, "00ff".to_string()),
        (StringType::URLString, "http://x".to_string()),
        (StringType::URLString, "http://y".to_string()),
    ];
    record_candidates(&mut store, &defaults(), candidates);
    assert_eq!(store.count(StringType::JSONString), 0);
    assert_eq!(store.count(StringType::HexString), 0);
    assert_eq!(
        store.texts_of(StringType::URLString),
        &vec!["http://x".to_string(), "http://y".to_string()]
    );
}
