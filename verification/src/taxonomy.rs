//! The taxonomy: the kinds of strings, their display names, and the named
//! groups of kinds that filters may refer to.

use vstd::prelude::*;
use crate::text::{decides_order_at, lemma_precedes_is_transitive, precedes};

verus! {

/// How many kinds there are.
pub const KIND_COUNT: usize = 32;

/// The category a piece of matched text belongs to.
#[derive(Clone, Copy, Debug, PartialEq, Eq, Hash, Structural)]
pub enum StringType {
    JunkString,
    RegularString,
    IPv4String,
    IPv6String,
    PathString,
    FormatMessageString,
    SecretString,
    URLString,
    EmailString,
    UUIDString,
    MACAddressString,
    Base64String,
    HexString,
    GitHashString,
    JSONString,
    XMLString,
    TimestampString,
    SemVerString,
    CppTemplateString,
    CppExceptionString,
    CppRTTIString,
    PythonTracebackString,
    JavaStackTraceString,
    JavaScriptErrorString,
    GoPanicString,
    RustPanicString,
    SQLQueryString,
    SSHKeyString,
    MD5HashString,
    SHA1HashString,
    SHA256HashString,
    SHA512HashString,
}

impl StringType {
    /// The display name of a kind, as a sequence of characters.
    pub open spec fn name(self) -> Seq<char> {
        match self {
            StringType::JunkString => "Junk"@,
            StringType::RegularString => "Regular"@,
            StringType::IPv4String => "IPv4"@,
            StringType::IPv6String => "IPv6"@,
            StringType::PathString => "Path"@,
            StringType::FormatMessageString => "FormatMessage"@,
            StringType::SecretString => "Secret"@,
            StringType::URLString => "URL"@,
            StringType::EmailString => "Email"@,
            StringType::UUIDString => "UUID"@,
            StringType::MACAddressString => "MACAddress"@,
            StringType::Base64String => "Base64"@,
            StringType::HexString => "Hex"@,
            StringType::GitHashString => "GitHash"@,
            StringType::JSONString => "JSON"@,
            StringType::XMLString => "XML"@,
            StringType::TimestampString => "Timestamp"@,
            StringType::SemVerString => "SemVer"@,
            StringType::CppTemplateString => "CppTemplate"@,
            StringType::CppExceptionString => "CppException"@,
            StringType::CppRTTIString => "CppRTTI"@,
            StringType::PythonTracebackString => "PythonTraceback"@,
            StringType::JavaStackTraceString => "JavaStackTrace"@,
            StringType::JavaScriptErrorString => "JavaScriptError"@,
            StringType::GoPanicString => "GoPanic"@,
            StringType::RustPanicString => "RustPanic"@,
            StringType::SQLQueryString => "SQLQuery"@,
            StringType::SSHKeyString => "SSHKey"@,
            StringType::MD5HashString => "MD5Hash"@,
            StringType::SHA1HashString => "SHA1Hash"@,
            StringType::SHA256HashString => "SHA256Hash"@,
            StringType::SHA512HashString => "SHA512Hash"@,
        }
    }

    /// The noisy kinds that are left out of a report unless asked for.
    pub open spec fn default_disabled_kinds() -> Seq<StringType> {
        seq![
            StringType::RustPanicString,
            StringType::PythonTracebackString,
            StringType::JavaStackTraceString,
            StringType::JavaScriptErrorString,
            StringType::GoPanicString,
            StringType::CppExceptionString,
            StringType::Base64String,
            StringType::HexString,
            StringType::JSONString,
            StringType::GitHashString,
        ]
    }

    /// The kinds of the group `cpp`.
    pub open spec fn cpp_kinds() -> Seq<StringType> {
        seq![
            StringType::CppTemplateString,
            StringType::CppExceptionString,
            StringType::CppRTTIString,
        ]
    }

    /// The kinds of the group `errors`.
    pub open spec fn error_kinds() -> Seq<StringType> {
        seq![
            StringType::CppExceptionString,
            StringType::PythonTracebackString,
            StringType::JavaStackTraceString,
            StringType::JavaScriptErrorString,
            StringType::GoPanicString,
            StringType::RustPanicString,
        ]
    }

    /// The kinds of the group `network`.
    pub open spec fn network_kinds() -> Seq<StringType> {
        seq![
            StringType::IPv4String,
            StringType::IPv6String,
            StringType::URLString,
            StringType::EmailString,
            StringType::MACAddressString,
        ]
    }

    /// The kinds of the group `identifiers`.
    pub open spec fn identifier_kinds() -> Seq<StringType> {
        seq![
            StringType::UUIDString,
            StringType::MACAddressString,
            StringType::GitHashString,
        ]
    }

    /// The kinds of the group `data-formats`.
    pub open spec fn data_format_kinds() -> Seq<StringType> {
        seq![
            StringType::JSONString,
            StringType::XMLString,
            StringType::Base64String,
            StringType::HexString,
        ]
    }

    /// All kinds, in the lexicographic order of their display names.
    pub open spec fn by_name() -> Seq<StringType> {
        seq![
            StringType::Base64String,
            StringType::CppExceptionString,
            StringType::CppRTTIString,
            StringType::CppTemplateString,
            StringType::EmailString,
            StringType::FormatMessageString,
            StringType::GitHashString,
            StringType::GoPanicString,
            StringType::HexString,
            StringType::IPv4String,
            StringType::IPv6String,
            StringType::JSONString,
            StringType::JavaScriptErrorString,
            StringType::JavaStackTraceString,
            StringType::JunkString,
            StringType::MACAddressString,
            StringType::MD5HashString,
            StringType::PathString,
            StringType::PythonTracebackString,
            StringType::RegularString,
            StringType::RustPanicString,
            StringType::SHA1HashString,
            StringType::SHA256HashString,
            StringType::SHA512HashString,
            StringType::SQLQueryString,
            StringType::SSHKeyString,
            StringType::SecretString,
            StringType::SemVerString,
            StringType::TimestampString,
            StringType::URLString,
            StringType::UUIDString,
            StringType::XMLString,
        ]
    }

    /// The position of a kind in the order of display names.
    pub open spec fn rank_of(self) -> int {
        match self {
            StringType::JunkString => 14,
            StringType::RegularString => 19,
            StringType::IPv4String => 9,
            StringType::IPv6String => 10,
            StringType::PathString => 17,
            StringType::FormatMessageString => 5,
            StringType::SecretString => 26,
            StringType::URLString => 29,
            StringType::EmailString => 4,
            StringType::UUIDString => 30,
            StringType::MACAddressString => 15,
            StringType::Base64String => 0,
            StringType::HexString => 8,
            StringType::GitHashString => 6,
            StringType::JSONString => 11,
            StringType::XMLString => 31,
            StringType::TimestampString => 28,
            StringType::SemVerString => 27,
            StringType::CppTemplateString => 3,
            StringType::CppExceptionString => 1,
            StringType::CppRTTIString => 2,
            StringType::PythonTracebackString => 18,
            StringType::JavaStackTraceString => 13,
            StringType::JavaScriptErrorString => 12,
            StringType::GoPanicString => 7,
            StringType::RustPanicString => 20,
            StringType::SQLQueryString => 24,
            StringType::SSHKeyString => 25,
            StringType::MD5HashString => 16,
            StringType::SHA1HashString => 21,
            StringType::SHA256HashString => 22,
            StringType::SHA512HashString => 23,
        }
    }

    /// The stable display name of this kind.
    pub fn as_str(&self) -> (r: &'static str)
        ensures
            r@ == self.name(),
    {
        match self {
            StringType::JunkString => "Junk",
            StringType::RegularString => "Regular",
            StringType::IPv4String => "IPv4",
            StringType::IPv6String => "IPv6",
            StringType::PathString => "Path",
            StringType::FormatMessageString => "FormatMessage",
            StringType::SecretString => "Secret",
            StringType::URLString => "URL",
            StringType::EmailString => "Email",
            StringType::UUIDString => "UUID",
            StringType::MACAddressString => "MACAddress",
            StringType::Base64String => "Base64",
            StringType::HexString => "Hex",
            StringType::GitHashString => "GitHash",
            StringType::JSONString => "JSON",
            StringType::XMLString => "XML",
            StringType::TimestampString => "Timestamp",
            StringType::SemVerString => "SemVer",
            StringType::CppTemplateString => "CppTemplate",
            StringType::CppExceptionString => "CppException",
            StringType::CppRTTIString => "CppRTTI",
            StringType::PythonTracebackString => "PythonTraceback",
            StringType::JavaStackTraceString => "JavaStackTrace",
            StringType::JavaScriptErrorString => "JavaScriptError",
            StringType::GoPanicString => "GoPanic",
            StringType::RustPanicString => "RustPanic",
            StringType::SQLQueryString => "SQLQuery",
            StringType::SSHKeyString => "SSHKey",
            StringType::MD5HashString => "MD5Hash",
            StringType::SHA1HashString => "SHA1Hash",
            StringType::SHA256HashString => "SHA256Hash",
            StringType::SHA512HashString => "SHA512Hash",
        }
    }

    /// The noisy kinds that are left out of a report unless asked for.
    pub fn default_disabled_types() -> (r: Vec<StringType>)
        ensures
            r@ == Self::default_disabled_kinds(),
    {
        vec![
            StringType::RustPanicString,
            StringType::PythonTracebackString,
            StringType::JavaStackTraceString,
            StringType::JavaScriptErrorString,
            StringType::GoPanicString,
            StringType::CppExceptionString,
            StringType::Base64String,
            StringType::HexString,
            StringType::JSONString,
            StringType::GitHashString,
        ]
    }

    /// The kinds of the group `cpp`.
    pub fn cpp_types() -> (r: Vec<StringType>)
        ensures
            r@ == Self::cpp_kinds(),
    {
        vec![
            StringType::CppTemplateString,
            StringType::CppExceptionString,
            StringType::CppRTTIString,
        ]
    }

    /// The kinds of the group `errors`.
    pub fn error_types() -> (r: Vec<StringType>)
        ensures
            r@ == Self::error_kinds(),
    {
        vec![
            StringType::CppExceptionString,
            StringType::PythonTracebackString,
            StringType::JavaStackTraceString,
            StringType::JavaScriptErrorString,
            StringType::GoPanicString,
            StringType::RustPanicString,
        ]
    }

    /// The kinds of the group `network`.
    pub fn network_types() -> (r: Vec<StringType>)
        ensures
            r@ == Self::network_kinds(),
    {
        vec![
            StringType::IPv4String,
            StringType::IPv6String,
            StringType::URLString,
            StringType::EmailString,
            StringType::MACAddressString,
        ]
    }

    /// The kinds of the group `identifiers`.
    pub fn identifier_types() -> (r: Vec<StringType>)
        ensures
            r@ == Self::identifier_kinds(),
    {
        vec![
            StringType::UUIDString,
            StringType::MACAddressString,
            StringType::GitHashString,
        ]
    }

    /// The kinds of the group `data-formats`.
    pub fn data_format_types() -> (r: Vec<StringType>)
        ensures
            r@ == Self::data_format_kinds(),
    {
        vec![
            StringType::JSONString,
            StringType::XMLString,
            StringType::Base64String,
            StringType::HexString,
        ]
    }

    /// All kinds, in the lexicographic order of their display names.
    pub fn all_by_name() -> (r: Vec<StringType>)
        ensures
            r@ == Self::by_name(),
    {
        vec![
            StringType::Base64String,
            StringType::CppExceptionString,
            StringType::CppRTTIString,
            StringType::CppTemplateString,
            StringType::EmailString,
            StringType::FormatMessageString,
            StringType::GitHashString,
            StringType::GoPanicString,
            StringType::HexString,
            StringType::IPv4String,
            StringType::IPv6String,
            StringType::JSONString,
            StringType::JavaScriptErrorString,
            StringType::JavaStackTraceString,
            StringType::JunkString,
            StringType::MACAddressString,
            StringType::MD5HashString,
            StringType::PathString,
            StringType::PythonTracebackString,
            StringType::RegularString,
            StringType::RustPanicString,
            StringType::SHA1HashString,
            StringType::SHA256HashString,
            StringType::SHA512HashString,
            StringType::SQLQueryString,
            StringType::SSHKeyString,
            StringType::SecretString,
            StringType::SemVerString,
            StringType::TimestampString,
            StringType::URLString,
            StringType::UUIDString,
            StringType::XMLString,
        ]
    }

    /// The position of this kind in the order of display names.
    pub fn rank(&self) -> (r: usize)
        ensures
            r == self.rank_of(),
            r < KIND_COUNT,
            Self::by_name()[r as int] == *self,
    {
        match self {
            StringType::JunkString => 14,
            StringType::RegularString => 19,
            StringType::IPv4String => 9,
            StringType::IPv6String => 10,
            StringType::PathString => 17,
            StringType::FormatMessageString => 5,
            StringType::SecretString => 26,
            StringType::URLString => 29,
            StringType::EmailString => 4,
            StringType::UUIDString => 30,
            StringType::MACAddressString => 15,
            StringType::Base64String => 0,
            StringType::HexString => 8,
            StringType::GitHashString => 6,
            StringType::JSONString => 11,
            StringType::XMLString => 31,
            StringType::TimestampString => 28,
            StringType::SemVerString => 27,
            StringType::CppTemplateString => 3,
            StringType::CppExceptionString => 1,
            StringType::CppRTTIString => 2,
            StringType::PythonTracebackString => 18,
            StringType::JavaStackTraceString => 13,
            StringType::JavaScriptErrorString => 12,
            StringType::GoPanicString => 7,
            StringType::RustPanicString => 20,
            StringType::SQLQueryString => 24,
            StringType::SSHKeyString => 25,
            StringType::MD5HashString => 16,
            StringType::SHA1HashString => 21,
            StringType::SHA256HashString => 22,
            StringType::SHA512HashString => 23,
        }
    }
}

/// Every kind stands in the order of display names exactly once, at its
/// rank.
pub proof fn lemma_rank_names_kind(kind: StringType)
    ensures
        0 <= kind.rank_of() < KIND_COUNT,
        StringType::by_name().len() == KIND_COUNT,
        StringType::by_name()[kind.rank_of()] == kind,
        forall|i: int|
            0 <= i < KIND_COUNT && #[trigger] StringType::by_name()[i] == kind ==> i
                == kind.rank_of(),
{
}

/// In the order of display names, each kind's name comes before the next
/// kind's name.
proof fn lemma_next_name_is_later(i: int)
    requires
        0 <= i < KIND_COUNT - 1,
    ensures
        precedes(StringType::by_name()[i].name(), StringType::by_name()[i + 1].name()),
{
    if i == 0 {
        reveal_strlit("Base64");
        reveal_strlit("CppException");
        assert(decides_order_at("Base64"@, "CppException"@, 0));
    } else if i == 1 {
        reveal_strlit("CppException");
        reveal_strlit("CppRTTI");
        assert(decides_order_at("CppException"@, "CppRTTI"@, 3));
    } else if i == 2 {
        reveal_strlit("CppRTTI");
        reveal_strlit("CppTemplate");
        assert(decides_order_at("CppRTTI"@, "CppTemplate"@, 3));
    } else if i == 3 {
        reveal_strlit("CppTemplate");
        reveal_strlit("Email");
        assert(decides_order_at("CppTemplate"@, "Email"@, 0));
    } else if i == 4 {
        reveal_strlit("Email");
        reveal_strlit("FormatMessage");
        assert(decides_order_at("Email"@, "FormatMessage"@, 0));
    } else if i == 5 {
        reveal_strlit("FormatMessage");
        reveal_strlit("GitHash");
        assert(decides_order_at("FormatMessage"@, "GitHash"@, 0));
    } else if i == 6 {
        reveal_strlit("GitHash");
        reveal_strlit("GoPanic");
        assert(decides_order_at("GitHash"@, "GoPanic"@, 1));
    } else if i == 7 {
        reveal_strlit("GoPanic");
        reveal_strlit("Hex");
        assert(decides_order_at("GoPanic"@, "Hex"@, 0));
    } else if i == 8 {
        reveal_strlit("Hex");
        reveal_strlit("IPv4");
        assert(decides_order_at("Hex"@, "IPv4"@, 0));
    } else if i == 9 {
        reveal_strlit("IPv4");
        reveal_strlit("IPv6");
        assert(decides_order_at("IPv4"@, "IPv6"@, 3));
    } else if i == 10 {
        reveal_strlit("IPv6");
        reveal_strlit("JSON");
        assert(decides_order_at("IPv6"@, "JSON"@, 0));
    } else if i == 11 {
        reveal_strlit("JSON");
        reveal_strlit("JavaScriptError");
        assert(decides_order_at("JSON"@, "JavaScriptError"@, 1));
    } else if i == 12 {
        reveal_strlit("JavaScriptError");
        reveal_strlit("JavaStackTrace");
        assert(decides_order_at("JavaScriptError"@, "JavaStackTrace"@, 5));
    } else if i == 13 {
        reveal_strlit("JavaStackTrace");
        reveal_strlit("Junk");
        assert(decides_order_at("JavaStackTrace"@, "Junk"@, 1));
    } else if i == 14 {
        reveal_strlit("Junk");
        reveal_strlit("MACAddress");
        assert(decides_order_at("Junk"@, "MACAddress"@, 0));
    } else if i == 15 {
        reveal_strlit("MACAddress");
        reveal_strlit("MD5Hash");
        assert(decides_order_at("MACAddress"@, "MD5Hash"@, 1));
    } else if i == 16 {
        reveal_strlit("MD5Hash");
        reveal_strlit("Path");
        assert(decides_order_at("MD5Hash"@, "Path"@, 0));
    } else if i == 17 {
        reveal_strlit("Path");
        reveal_strlit("PythonTraceback");
        assert(decides_order_at("Path"@, "PythonTraceback"@, 1));
    } else if i == 18 {
        reveal_strlit("PythonTraceback");
        reveal_strlit("Regular");
        assert(decides_order_at("PythonTraceback"@, "Regular"@, 0));
    } else if i == 19 {
        reveal_strlit("Regular");
        reveal_strlit("RustPanic");
        assert(decides_order_at("Regular"@, "RustPanic"@, 1));
    } else if i == 20 {
        reveal_strlit("RustPanic");
        reveal_strlit("SHA1Hash");
        assert(decides_order_at("RustPanic"@, "SHA1Hash"@, 0));
    } else if i == 21 {
        reveal_strlit("SHA1Hash");
        reveal_strlit("SHA256Hash");
        assert(decides_order_at("SHA1Hash"@, "SHA256Hash"@, 3));
    } else if i == 22 {
        reveal_strlit("SHA256Hash");
        reveal_strlit("SHA512Hash");
        assert(decides_order_at("SHA256Hash"@, "SHA512Hash"@, 3));
    } else if i == 23 {
        reveal_strlit("SHA512Hash");
        reveal_strlit("SQLQuery");
        assert(decides_order_at("SHA512Hash"@, "SQLQuery"@, 1));
    } else if i == 24 {
        reveal_strlit("SQLQuery");
        reveal_strlit("SSHKey");
        assert(decides_order_at("SQLQuery"@, "SSHKey"@, 1));
    } else if i == 25 {
        reveal_strlit("SSHKey");
        reveal_strlit("Secret");
        assert(decides_order_at("SSHKey"@, "Secret"@, 1));
    } else if i == 26 {
        reveal_strlit("Secret");
        reveal_strlit("SemVer");
        assert(decides_order_at("Secret"@, "SemVer"@, 2));
    } else if i == 27 {
        reveal_strlit("SemVer");
        reveal_strlit("Timestamp");
        assert(decides_order_at("SemVer"@, "Timestamp"@, 0));
    } else if i == 28 {
        reveal_strlit("Timestamp");
        reveal_strlit("URL");
        assert(decides_order_at("Timestamp"@, "URL"@, 0));
    } else if i == 29 {
        reveal_strlit("URL");
        reveal_strlit("UUID");
        assert(decides_order_at("URL"@, "UUID"@, 1));
    } else if i == 30 {
        reveal_strlit("UUID");
        reveal_strlit("XML");
        assert(decides_order_at("UUID"@, "XML"@, 0));
    }
}

proof fn lemma_names_in_order(i: int, j: int)
    requires
        0 <= i < j < KIND_COUNT,
    ensures
        precedes(StringType::by_name()[i].name(), StringType::by_name()[j].name()),
    decreases j - i,
{
    lemma_next_name_is_later(j - 1);
    if i < j - 1 {
        lemma_names_in_order(i, j - 1);
        lemma_precedes_is_transitive(
            StringType::by_name()[i].name(),
            StringType::by_name()[j - 1].name(),
            StringType::by_name()[j].name(),
        );
    }
}

/// The order of display names is what it is called: of two kinds, the one
/// of lower rank has the name that comes first in lexicographic order.
pub proof fn lemma_by_name_is_sorted()
    ensures
        forall|i: int, j: int|
            0 <= i < j < KIND_COUNT ==> precedes(
                #[trigger] StringType::by_name()[i].name(),
                #[trigger] StringType::by_name()[j].name(),
            ),
{
    assert forall|i: int, j: int| 0 <= i < j < KIND_COUNT implies precedes(
        #[trigger] StringType::by_name()[i].name(),
        #[trigger] StringType::by_name()[j].name(),
    ) by {
        lemma_names_in_order(i, j);
    }
}

/// What a filter option may name: a single kind, or a group of kinds.
#[derive(Clone, Copy, Debug, PartialEq, Eq, Hash, Structural)]
pub enum TypeFilter {
    Junk,
    Regular,
    Ipv4,
    Ipv6,
    Path,
    FormatMessage,
    Secret,
    Url,
    Email,
    Uuid,
    MacAddress,
    Base64,
    Hex,
    GitHash,
    Json,
    Xml,
    Timestamp,
    SemVer,
    CppTemplate,
    CppException,
    CppRtti,
    PythonTraceback,
    JavaStackTrace,
    JavascriptError,
    GoPanic,
    RustPanic,
    SqlQuery,
    SshKey,
    Md5,
    Sha1,
    Sha256,
    Sha512,
    Cpp,
    Errors,
    Network,
    Identifiers,
    DataFormats,
}

impl TypeFilter {
    /// The kinds that this filter stands for: the kind itself, or the
    /// members of the group.
    pub open spec fn members(self) -> Seq<StringType> {
        match self {
            TypeFilter::Junk => seq![StringType::JunkString],
            TypeFilter::Regular => seq![StringType::RegularString],
            TypeFilter::Ipv4 => seq![StringType::IPv4String],
            TypeFilter::Ipv6 => seq![StringType::IPv6String],
            TypeFilter::Path => seq![StringType::PathString],
            TypeFilter::FormatMessage => seq![StringType::FormatMessageString],
            TypeFilter::Secret => seq![StringType::SecretString],
            TypeFilter::Url => seq![StringType::URLString],
            TypeFilter::Email => seq![StringType::EmailString],
            TypeFilter::Uuid => seq![StringType::UUIDString],
            TypeFilter::MacAddress => seq![StringType::MACAddressString],
            TypeFilter::Base64 => seq![StringType::Base64String],
            TypeFilter::Hex => seq![StringType::HexString],
            TypeFilter::GitHash => seq![StringType::GitHashString],
            TypeFilter::Json => seq![StringType::JSONString],
            TypeFilter::Xml => seq![StringType::XMLString],
            TypeFilter::Timestamp => seq![StringType::TimestampString],
            TypeFilter::SemVer => seq![StringType::SemVerString],
            TypeFilter::CppTemplate => seq![StringType::CppTemplateString],
            TypeFilter::CppException => seq![StringType::CppExceptionString],
            TypeFilter::CppRtti => seq![StringType::CppRTTIString],
            TypeFilter::PythonTraceback => seq![StringType::PythonTracebackString],
            TypeFilter::JavaStackTrace => seq![StringType::JavaStackTraceString],
            TypeFilter::JavascriptError => seq![StringType::JavaScriptErrorString],
            TypeFilter::GoPanic => seq![StringType::GoPanicString],
            TypeFilter::RustPanic => seq![StringType::RustPanicString],
            TypeFilter::SqlQuery => seq![StringType::SQLQueryString],
            TypeFilter::SshKey => seq![StringType::SSHKeyString],
            TypeFilter::Md5 => seq![StringType::MD5HashString],
            TypeFilter::Sha1 => seq![StringType::SHA1HashString],
            TypeFilter::Sha256 => seq![StringType::SHA256HashString],
            TypeFilter::Sha512 => seq![StringType::SHA512HashString],
            TypeFilter::Cpp => StringType::cpp_kinds(),
            TypeFilter::Errors => StringType::error_kinds(),
            TypeFilter::Network => StringType::network_kinds(),
            TypeFilter::Identifiers => StringType::identifier_kinds(),
            TypeFilter::DataFormats => StringType::data_format_kinds(),
        }
    }

    /// Expands the filter into the kinds it stands for.
    pub fn to_string_types(&self) -> (r: Vec<StringType>)
        ensures
            r@ == self.members(),
    {
        match self {
            TypeFilter::Junk => vec![StringType::JunkString],
            TypeFilter::Regular => vec![StringType::RegularString],
            TypeFilter::Ipv4 => vec![StringType::IPv4String],
            TypeFilter::Ipv6 => vec![StringType::IPv6String],
            TypeFilter::Path => vec![StringType::PathString],
            TypeFilter::FormatMessage => vec![StringType::FormatMessageString],
            TypeFilter::Secret => vec![StringType::SecretString],
            TypeFilter::Url => vec![StringType::URLString],
            TypeFilter::Email => vec![StringType::EmailString],
            TypeFilter::Uuid => vec![StringType::UUIDString],
            TypeFilter::MacAddress => vec![StringType::MACAddressString],
            TypeFilter::Base64 => vec![StringType::Base64String],
            TypeFilter::Hex => vec![StringType::HexString],
            TypeFilter::GitHash => vec![StringType::GitHashString],
            TypeFilter::Json => vec![StringType::JSONString],
            TypeFilter::Xml => vec![StringType::XMLString],
            TypeFilter::Timestamp => vec![StringType::TimestampString],
            TypeFilter::SemVer => vec![StringType::SemVerString],
            TypeFilter::CppTemplate => vec![StringType::CppTemplateString],
            TypeFilter::CppException => vec![StringType::CppExceptionString],
            TypeFilter::CppRtti => vec![StringType::CppRTTIString],
            TypeFilter::PythonTraceback => vec![StringType::PythonTracebackString],
            TypeFilter::JavaStackTrace => vec![StringType::JavaStackTraceString],
            TypeFilter::JavascriptError => vec![StringType::JavaScriptErrorString],
            TypeFilter::GoPanic => vec![StringType::GoPanicString],
            TypeFilter::RustPanic => vec![StringType::RustPanicString],
            TypeFilter::SqlQuery => vec![StringType::SQLQueryString],
            TypeFilter::SshKey => vec![StringType::SSHKeyString],
            TypeFilter::Md5 => vec![StringType::MD5HashString],
            TypeFilter::Sha1 => vec![StringType::SHA1HashString],
            TypeFilter::Sha256 => vec![StringType::SHA256HashString],
            TypeFilter::Sha512 => vec![StringType::SHA512HashString],
            TypeFilter::Cpp => StringType::cpp_types(),
            TypeFilter::Errors => StringType::error_types(),
            TypeFilter::Network => StringType::network_types(),
            TypeFilter::Identifiers => StringType::identifier_types(),
            TypeFilter::DataFormats => StringType::data_format_types(),
        }
    }
}

} // verus!
