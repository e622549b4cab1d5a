use strbin::filter::{Args, KindSet};
use strbin::taxonomy::{StringType, TypeFilter};

fn args(with: Vec<TypeFilter>, without: Vec<TypeFilter>, no_defaults: bool) -> Args {
    Args { analyze: false, max_items: None, no_defaults, with, without }
}

fn every_kind() -> Vec<StringType> {
    StringType::all_by_name()
}

#[test]
fn kind_set_starts_empty() {
    let s = KindSet::new();
    for kind in every_kind() {
        assert!(!s.contains(kind));
    }
}

#[test]
fn kind_set_insert_reports_new_members() {
    let mut s = KindSet::new();
    assert!(s.insert(StringType::URLString));
    assert!(!s.insert(StringType::URLString));
    assert!(s.insert(StringType::HexString));
    assert!(s.contains(StringType::URLString));
    assert!(s.contains(StringType::HexString));
    assert!(!s.contains(StringType::JSONString));
}

#[test]
fn kind_set_extend_is_union() {
    let mut s = KindSet::new();
    s.insert(StringType::URLString);
    s.extend(&StringType::network_types());
    s.extend(&vec![]);
    for kind in every_kind() {
        assert_eq!(s.contains(kind), StringType::network_types().contains(&kind));
    }
}

#[test]
fn no_include_list_builds_none() {
    assert!(args(vec![], vec![TypeFilter::Url], false).build_included_types().is_none());
}

#[test]
fn include_list_is_expanded_and_united() {
    let a = args(vec![TypeFilter::Cpp, TypeFilter::Url, TypeFilter::Errors], vec![], false);
    let set = a.build_included_types().unwrap();
    let mut expected = StringType::cpp_types();
    expected.push(StringType::URLString);
    expected.extend(StringType::error_types());
    for kind in every_kind() {
        assert_eq!(set.contains(kind), expected.contains(&kind));
    }
}

#[test]
fn exclude_list_is_expanded() {
    let a = args(vec![], vec![TypeFilter::Identifiers, TypeFilter::Junk], false);
    let set = a.build_excluded_types();
    for kind in every_kind() {
        let expected =
            StringType::identifier_types().contains(&kind) || kind == StringType::JunkString;
        assert_eq!(set.contains(kind), expected);
    }
    let none = args(vec![], vec![], false).build_excluded_types();
    for kind in every_kind() {
        assert!(!none.contains(kind));
    }
}

#[test]
fn defaults_suppress_the_noisy_kinds() {
    let a = args(vec![], vec![], false);
    for kind in every_kind() {
        assert_eq!(
            a.should_include_type(kind),
            !StringType::default_disabled_types().contains(&kind)
        );
    }
    assert!(!a.should_include_type(StringType::JSONString));
    assert!(!a.should_include_type(StringType::GitHashString));
    assert!(a.should_include_type(StringType::IPv4String));
    assert!(a.should_include_type(StringType::RegularString));
}

#[test]
fn no_defaults_lets_everything_through() {
    let a = args(vec![], vec![], true);
    for kind in every_kind() {
        assert!(a.should_include_type(kind));
    }
}

#[test]
fn exclude_list_adds_to_the_defaults() {
    let a = args(vec![], vec![TypeFilter::Network], false);
    assert!(!a.should_include_type(StringType::IPv4String));
    assert!(!a.should_include_type(StringType::EmailString));
    assert!(!a.should_include_type(StringType::JSONString));
    assert!(a.should_include_type(StringType::UUIDString));
    let b = args(vec![], vec![TypeFilter::Network], true);
    assert!(!b.should_include_type(StringType::IPv4String));
    assert!(b.should_include_type(StringType::JSONString));
}

#[test]
fn include_list_wins_over_exclude_list_and_defaults() {
    let a = args(
        vec![TypeFilter::GitHash, TypeFilter::Network],
        vec![TypeFilter::Network, TypeFilter::GitHash],
        false,
    );
    for kind in every_kind() {
        let expected =
            kind == StringType::GitHashString || StringType::network_types().contains(&kind);
        assert_eq!(a.should_include_type(kind), expected);
    }
}

#[test]
fn include_list_admits_nothing_else() {
    let a = args(vec![TypeFilter::Json], vec![], true);
    assert!(a.should_include_type(StringType::JSONString));
    assert!(!a.should_include_type(StringType::RegularString));
    assert!(!a.should_include_type(StringType::XMLString));
}
