use strbin::taxonomy::{StringType, TypeFilter, KIND_COUNT};

fn every_kind() -> Vec<StringType> {
    vec![
        StringType::JunkString, StringType::RegularString, StringType::IPv4String, StringType::IPv6String, StringType::PathString, StringType::FormatMessageString,
        StringType::SecretString, StringType::URLString, StringType::EmailString, StringType::UUIDString, StringType::MACAddressString, StringType::Base64String,
        StringType::HexString, StringType::GitHashString, StringType::JSONString, StringType::XMLString, StringType::TimestampString, StringType::SemVerString,
        StringType::CppTemplateString, StringType::CppExceptionString, StringType::CppRTTIString, StringType::PythonTracebackString,
        StringType::JavaStackTraceString, StringType::JavaScriptErrorString, StringType::GoPanicString, StringType::RustPanicString,
        StringType::SQLQueryString, StringType::SSHKeyString, StringType::MD5HashString, StringType::SHA1HashString, StringType::SHA256HashString,
        StringType::SHA512HashString,
    ]
}

#[test]
fn display_names_are_stable() {
    let names: Vec<&str> = every_kind().iter().map(|k| k.as_str()).collect();
    assert_eq!(
        names,
        vec![
            "Junk", "Regular", "IPv4", "IPv6", "Path", "FormatMessage", "Secret", "URL", "Email",
            "UUID", "MACAddress", "Base64", "Hex", "GitHash", "JSON", "XML", "Timestamp",
            "SemVer", "CppTemplate", "CppException", "CppRTTI", "PythonTraceback",
            "JavaStackTrace", "JavaScriptError", "GoPanic", "RustPanic", "SQLQuery", "SSHKey",
            "MD5Hash", "SHA1Hash", "SHA256Hash", "SHA512Hash",
        ]
    );
}

#[test]
fn there_are_thirty_two_kinds() {
    assert_eq!(KIND_COUNT, 32);
    assert_eq!(every_kind().len(), KIND_COUNT);
    assert_eq!(StringType::all_by_name().len(), KIND_COUNT);
}

#[test]
fn default_disabled_kinds_are_the_noisy_ones() {
    assert_eq!(
        StringType::default_disabled_types(),
        vec![
            StringType::RustPanicString, StringType::PythonTracebackString, StringType::JavaStackTraceString, StringType::JavaScriptErrorString,
            StringType::GoPanicString, StringType::CppExceptionString, StringType::Base64String, StringType::HexString, StringType::JSONString,
            StringType::GitHashString,
        ]
    );
}

#[test]
fn groups_have_their_members() {
    assert_eq!(
        StringType::cpp_types(),
        vec![StringType::CppTemplateString, StringType::CppExceptionString, StringType::CppRTTIString]
    );
    assert_eq!(
        StringType::error_types(),
        vec![
            StringType::CppExceptionString, StringType::PythonTracebackString, StringType::JavaStackTraceString,
            StringType::JavaScriptErrorString, StringType::GoPanicString, StringType::RustPanicString,
        ]
    );
    assert_eq!(
        StringType::network_types(),
        vec![StringType::IPv4String, StringType::IPv6String, StringType::URLString, StringType::EmailString, StringType::MACAddressString]
    );
    assert_eq!(
        StringType::identifier_types(),
        vec![StringType::UUIDString, StringType::MACAddressString, StringType::GitHashString]
    );
    assert_eq!(
        StringType::data_format_types(),
        vec![StringType::JSONString, StringType::XMLString, StringType::Base64String, StringType::HexString]
    );
}

#[test]
fn single_kind_filters_expand_to_one_kind() {
    let pairs = vec![
        (TypeFilter::Junk, StringType::JunkString),
        (TypeFilter::Regular, StringType::RegularString),
        (TypeFilter::Ipv4, StringType::IPv4String),
        (TypeFilter::Ipv6, StringType::IPv6String),
        (TypeFilter::Path, StringType::PathString),
        (TypeFilter::FormatMessage, StringType::FormatMessageString),
        (TypeFilter::Secret, StringType::SecretString),
        (TypeFilter::Url, StringType::URLString),
        (TypeFilter::Email, StringType::EmailString),
        (TypeFilter::Uuid, StringType::UUIDString),
        (TypeFilter::MacAddress, StringType::MACAddressString),
        (TypeFilter::Base64, StringType::Base64String),
        (TypeFilter::Hex, StringType::HexString),
        (TypeFilter::GitHash, StringType::GitHashString),
        (TypeFilter::Json, StringType::JSONString),
        (TypeFilter::Xml, StringType::XMLString),
        (TypeFilter::Timestamp, StringType::TimestampString),
        (TypeFilter::SemVer, StringType::SemVerString),
        (TypeFilter::CppTemplate, StringType::CppTemplateString),
        (TypeFilter::CppException, StringType::CppExceptionString),
        (TypeFilter::CppRtti, StringType::CppRTTIString),
        (TypeFilter::PythonTraceback, StringType::PythonTracebackString),
        (TypeFilter::JavaStackTrace, StringType::JavaStackTraceString),
        (TypeFilter::JavascriptError, StringType::JavaScriptErrorString),
        (TypeFilter::GoPanic, StringType::GoPanicString),
        (TypeFilter::RustPanic, StringType::RustPanicString),
        (TypeFilter::SqlQuery, StringType::SQLQueryString),
        (TypeFilter::SshKey, StringType::SSHKeyString),
        (TypeFilter::Md5, StringType::MD5HashString),
        (TypeFilter::Sha1, StringType::SHA1HashString),
        (TypeFilter::Sha256, StringType::SHA256HashString),
        (TypeFilter::Sha512, StringType::SHA512HashString),
    ];
    assert_eq!(pairs.len(), 32);
    for (filter, kind) in pairs {
        assert_eq!(filter.to_string_types(), vec![kind]);
    }
}

#[test]
fn group_filters_expand_to_their_groups() {
    assert_eq!(TypeFilter::Cpp.to_string_types(), StringType::cpp_types());
    assert_eq!(TypeFilter::Errors.to_string_types(), StringType::error_types());
    assert_eq!(TypeFilter::Network.to_string_types(), StringType::network_types());
    assert_eq!(TypeFilter::Identifiers.to_string_types(), StringType::identifier_types());
    assert_eq!(TypeFilter::DataFormats.to_string_types(), StringType::data_format_types());
}

#[test]
fn name_order_is_the_order_of_sorted_names() {
    let mut expected = every_kind();
    expected.sort_by_key(|k| k.as_str());
    assert_eq!(StringType::all_by_name(), expected);
    let names: Vec<&str> = StringType::all_by_name().iter().map(|k| k.as_str()).collect();
    assert_eq!(names[0], "Base64");
    assert_eq!(names[11], "JSON");
    assert_eq!(names[12], "JavaScriptError");
    assert_eq!(names[13], "JavaStackTrace");
    assert_eq!(names[31], "XML");
    for pair in names.windows(2) {
        assert!(pair[0] < pair[1]);
    }
}

#[test]
fn rank_is_the_position_in_name_order() {
    let ordered = StringType::all_by_name();
    for kind in every_kind() {
        assert!(kind.rank() < KIND_COUNT);
        assert_eq!(ordered[kind.rank()], kind);
    }
    assert_eq!(StringType::Base64String.rank(), 0);
    assert_eq!(StringType::XMLString.rank(), 31);
    assert_eq!(StringType::RegularString.rank(), 19);
}
