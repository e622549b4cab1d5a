//! The occurrence detectors: a fixed, ordered table of patterns, each tied
//! to the kind it detects, and the compiled battery that applies them to a
//! line.

use vstd::prelude::*;
use regex::Regex;
use crate::taxonomy::StringType;
use crate::text::all_within;

verus! {

/// A compiled regular expression of the `regex` crate. The proofs see
/// nothing inside it.
#[verifier::external_type_specification]
#[verifier::external_body]
pub struct ExRegex(regex::Regex);

/// The error with which the `regex` crate refuses a pattern. The proofs see
/// nothing inside it.
#[verifier::external_type_specification]
#[verifier::external_body]
pub struct ExRegexError(regex::Error);

/// The texts of the successive non-overlapping occurrences, from left to
/// right, that a compiled regular expression finds in `line`: what
/// `Regex::find_iter` yields, each match by its text.
pub uninterp spec fn regex_occurrences(re: Regex, line: Seq<char>) -> Seq<Seq<char>>;

/// The texts of the successive non-overlapping occurrences, from left to
/// right, that a regular expression which `Regex::new` compiled from
/// `pattern` finds in `line`.
pub uninterp spec fn pattern_occurrences(pattern: Seq<char>, line: Seq<char>) -> Seq<Seq<char>>;

/// Whether `Regex::new` accepts `pattern`. The call builds with the
/// builder's fixed defaults, size limit included, so for a given build of
/// the `regex` crate the pattern text decides.
pub uninterp spec fn pattern_compiles(pattern: Seq<char>) -> bool;

/// The compiled expression `re` finds in every line what `pattern` stands
/// for.
pub open spec fn finds_like(re: Regex, pattern: Seq<char>) -> bool {
    forall|line: Seq<char>|
        #[trigger] regex_occurrences(re, line) == pattern_occurrences(pattern, line)
}

/// Calls `Regex::new`. Trusted: whether the call succeeds depends on the
/// pattern text alone, and so does what a compiled expression finds: any two
/// expressions compiled from one text by this call find the same. Which
/// patterns compile is named and not defined.
#[verifier::external_body]
fn compile(pattern: &str) -> (r: Result<Regex, regex::Error>)
    ensures
        r is Ok <==> pattern_compiles(pattern@),
        r matches Ok(re) ==> forall|line: Seq<char>| #[trigger]
            regex_occurrences(re, line) == pattern_occurrences(pattern@, line),
{
    Regex::new(pattern)
}

/// Calls `Regex::find_iter` and copies out the text of each match with
/// `Match::as_str`. Trusted: the texts are, in order, what the expression
/// finds in the line, and each of them is a piece of the line.
#[verifier::external_body]
fn find_all(re: &Regex, line: &str) -> (r: Vec<String>)
    ensures
        r.deep_view() == regex_occurrences(*re, line@),
        all_within(line@, r.deep_view()),
{
    re.find_iter(line).map(|m| m.as_str().to_string()).collect()
}

/// How many occurrence detectors there are.
pub const DETECTOR_COUNT: usize = 22;

/// The occurrence detectors in the order in which they are applied, each
/// with the pattern it searches for. Network, identifier and encoding kinds
/// come first, then the syntactic kinds, then the hash digests from the
/// longest to the shortest.
pub open spec fn detector_table() -> Seq<(StringType, Seq<char>)> {
    seq![
        (StringType::URLString, r"(?i)\b(?:https?|ftp)://[^\s]+"@),
        (StringType::EmailString, r"\b[A-Za-z0-9._%+-]+@[A-Za-z0-9.-]+\.[A-Z|a-z]{2,}\b"@),
        (StringType::UUIDString, r"\b[0-9a-fA-F]{8}-[0-9a-fA-F]{4}-[0-9a-fA-F]{4}-[0-9a-fA-F]{4}-[0-9a-fA-F]{12}\b"@),
        (StringType::MACAddressString, r"\b(?:[0-9a-fA-F]{2}[:-]){5}[0-9a-fA-F]{2}\b"@),
        (StringType::IPv4String, r"\b(?:[0-9]{1,3}\.){3}[0-9]{1,3}\b"@),
        (StringType::IPv6String, r"(?i)\b(?:[0-9a-f]{0,4}:){2,7}[0-9a-f]{0,4}\b"@),
        (StringType::TimestampString, r"\d{4}-\d{2}-\d{2}[T\s]\d{2}:\d{2}:\d{2}"@),
        (StringType::SemVerString, r"\b\d+\.\d+\.\d+(?:-[0-9A-Za-z-]+)?(?:\+[0-9A-Za-z-]+)?\b"@),
        (StringType::GitHashString, r"\b[0-9a-f]{7,40}\b"@),
        (StringType::Base64String, r"\b[A-Za-z0-9+/]{20,}={0,2}\b"@),
        (StringType::HexString, r"\b(?:0x)?[0-9a-fA-F]{16,}\b"@),
        (StringType::CppTemplateString, r"(?:std::|boost::)[a-zA-Z_][a-zA-Z0-9_]*<.*>"@),
        (StringType::CppRTTIString, r"_Z[NKL][0-9a-zA-Z_]+"@),
        (StringType::SQLQueryString, r"(?i)\b(?:SELECT\s+(?:\*|\w+).*\s+FROM\s+\w+|INSERT\s+INTO\s+\w+.*VALUES|UPDATE\s+\w+\s+SET|DELETE\s+FROM\s+\w+|CREATE\s+TABLE\s+\w+|DROP\s+TABLE\s+\w+)"@),
        (StringType::PathString, r"(?:[a-zA-Z]:[/\\]|/)(?:[a-zA-Z0-9_.\-]+[/\\])+[a-zA-Z0-9_.\-]+|(?:[a-zA-Z]:[/\\]|/)[a-zA-Z0-9_.\-]+\.[a-zA-Z0-9]+"@),
        (StringType::FormatMessageString, r"%[sdfx]|\{\}|\{[0-9]+\}"@),
        (StringType::SecretString, r"(?:ey[A-Za-z0-9_-]{20,}\.[A-Za-z0-9_-]{20,}\.[A-Za-z0-9_-]{20,})|(?:AKIA[0-9A-Z]{16})|(?:(?:sk|pk|api|token)_[A-Za-z0-9]{32,})"@),
        (StringType::SSHKeyString, r"(?:ssh-(?:rsa|dss|ed25519|ecdsa)\s+[A-Za-z0-9+/=]{50,}|-----BEGIN\s+(?:RSA|DSA|EC|OPENSSH)\s+(?:PRIVATE|PUBLIC)\s+KEY-----)"@),
        (StringType::SHA512HashString, r"\b[a-fA-F0-9]{128}\b"@),
        (StringType::SHA256HashString, r"\b[a-fA-F0-9]{64}\b"@),
        (StringType::SHA1HashString, r"\b[a-fA-F0-9]{40}\b"@),
        (StringType::MD5HashString, r"\b[a-fA-F0-9]{32}\b"@),
    ]
}

/// The occurrence detectors in the order in which they are applied.
pub fn occurrence_detectors() -> (r: Vec<(StringType, &'static str)>)
    ensures
        r.len() == DETECTOR_COUNT,
        forall|i: int|
            0 <= i < r.len() ==> (#[trigger] r[i]).0 == detector_table()[i].0 && r[i].1@
                == detector_table()[i].1,
{
    vec![
        (StringType::URLString, r"(?i)\b(?:https?|ftp)://[^\s]+"),
        (StringType::EmailString, r"\b[A-Za-z0-9._%+-]+@[A-Za-z0-9.-]+\.[A-Z|a-z]{2,}\b"),
        (StringType::UUIDString, r"\b[0-9a-fA-F]{8}-[0-9a-fA-F]{4}-[0-9a-fA-F]{4}-[0-9a-fA-F]{4}-[0-9a-fA-F]{12}\b"),
        (StringType::MACAddressString, r"\b(?:[0-9a-fA-F]{2}[:-]){5}[0-9a-fA-F]{2}\b"),
        (StringType::IPv4String, r"\b(?:[0-9]{1,3}\.){3}[0-9]{1,3}\b"),
        (StringType::IPv6String, r"(?i)\b(?:[0-9a-f]{0,4}:){2,7}[0-9a-f]{0,4}\b"),
        (StringType::TimestampString, r"\d{4}-\d{2}-\d{2}[T\s]\d{2}:\d{2}:\d{2}"),
        (StringType::SemVerString, r"\b\d+\.\d+\.\d+(?:-[0-9A-Za-z-]+)?(?:\+[0-9A-Za-z-]+)?\b"),
        (StringType::GitHashString, r"\b[0-9a-f]{7,40}\b"),
        (StringType::Base64String, r"\b[A-Za-z0-9+/]{20,}={0,2}\b"),
        (StringType::HexString, r"\b(?:0x)?[0-9a-fA-F]{16,}\b"),
        (StringType::CppTemplateString, r"(?:std::|boost::)[a-zA-Z_][a-zA-Z0-9_]*<.*>"),
        (StringType::CppRTTIString, r"_Z[NKL][0-9a-zA-Z_]+"),
        (StringType::SQLQueryString, r"(?i)\b(?:SELECT\s+(?:\*|\w+).*\s+FROM\s+\w+|INSERT\s+INTO\s+\w+.*VALUES|UPDATE\s+\w+\s+SET|DELETE\s+FROM\s+\w+|CREATE\s+TABLE\s+\w+|DROP\s+TABLE\s+\w+)"),
        (StringType::PathString, r"(?:[a-zA-Z]:[/\\]|/)(?:[a-zA-Z0-9_.\-]+[/\\])+[a-zA-Z0-9_.\-]+|(?:[a-zA-Z]:[/\\]|/)[a-zA-Z0-9_.\-]+\.[a-zA-Z0-9]+"),
        (StringType::FormatMessageString, r"%[sdfx]|\{\}|\{[0-9]+\}"),
        (StringType::SecretString, r"(?:ey[A-Za-z0-9_-]{20,}\.[A-Za-z0-9_-]{20,}\.[A-Za-z0-9_-]{20,})|(?:AKIA[0-9A-Z]{16})|(?:(?:sk|pk|api|token)_[A-Za-z0-9]{32,})"),
        (StringType::SSHKeyString, r"(?:ssh-(?:rsa|dss|ed25519|ecdsa)\s+[A-Za-z0-9+/=]{50,}|-----BEGIN\s+(?:RSA|DSA|EC|OPENSSH)\s+(?:PRIVATE|PUBLIC)\s+KEY-----)"),
        (StringType::SHA512HashString, r"\b[a-fA-F0-9]{128}\b"),
        (StringType::SHA256HashString, r"\b[a-fA-F0-9]{64}\b"),
        (StringType::SHA1HashString, r"\b[a-fA-F0-9]{40}\b"),
        (StringType::MD5HashString, r"\b[a-fA-F0-9]{32}\b"),
    ]
}

/// The pattern of an occurrence detector was not accepted by the pattern
/// compiler.
#[derive(Clone, Copy, Debug, PartialEq, Eq, Structural)]
pub struct PatternError {
    /// The kind whose detector could not be built.
    pub kind: StringType,
}

/// Turns the outcome of compiling the pattern of `kind` into the library's
/// own terms: the compiled expression, or the kind whose pattern failed.
pub fn checked(kind: StringType, outcome: Result<Regex, regex::Error>) -> (r: Result<
    Regex,
    PatternError,
>)
    ensures
        match outcome {
            Ok(re) => r == Ok::<Regex, PatternError>(re),
            Err(_) => r == Err::<Regex, PatternError>(PatternError { kind }),
        },
{
    match outcome {
        Ok(re) => Ok(re),
        Err(_) => Err(PatternError { kind }),
    }
}

/// The patterns of the first `upto` detectors of the table all compile.
pub open spec fn all_compile(upto: int) -> bool {
    forall|j: int| 0 <= j < upto ==> pattern_compiles(#[trigger] detector_table()[j].1)
}

/// What each occurrence detector finds in `line`: one list of texts per
/// detector, in the order of the detector table.
pub open spec fn battery_findings(line: Seq<char>) -> Seq<Seq<Seq<char>>> {
    Seq::new(
        detector_table().len(),
        |i: int| pattern_occurrences(detector_table()[i].1, line),
    )
}

/// The compiled occurrence detectors. Patterns are compiled once, when the
/// battery is built, and then applied to any number of lines.
pub struct Battery {
    compiled: Vec<Regex>,
}

impl Battery {
    #[verifier::type_invariant]
    spec fn compiled_from_table(self) -> bool {
        &&& self.compiled.len() == detector_table().len()
        &&& forall|i: int|
            0 <= i < self.compiled.len() ==> finds_like(
                #[trigger] self.compiled[i],
                detector_table()[i].1,
            )
    }

    /// Compiles every pattern of the detector table. Succeeds exactly when
    /// every pattern compiles; else fails with the kind of the first
    /// detector, in table order, whose pattern does not compile.
    pub fn new() -> (r: Result<Battery, PatternError>)
        ensures
            r is Ok <==> all_compile(detector_table().len() as int),
            r matches Err(e) ==> exists|i: int|
                0 <= i < detector_table().len() && (#[trigger] detector_table()[i]).0 == e.kind
                    && !pattern_compiles(detector_table()[i].1) && all_compile(i),
    {
        let table = occurrence_detectors();
        let mut compiled: Vec<Regex> = Vec::new();
        let mut i: usize = 0;
        while i < table.len()
            invariant
                i <= table.len(),
                table.len() == detector_table().len(),
                compiled.len() == i,
                forall|j: int|
                    0 <= j < table.len() ==> (#[trigger] table[j]).0 == detector_table()[j].0
                        && table[j].1@ == detector_table()[j].1,
                forall|j: int|
                    0 <= j < i ==> finds_like(#[trigger] compiled[j], detector_table()[j].1),
                all_compile(i as int),
            decreases table.len() - i,
        {
            let entry = table[i];
            match checked(entry.0, compile(entry.1)) {
                Ok(re) => {
                    compiled.push(re);
                },
                Err(e) => {
                    assert(detector_table()[i as int].0 == e.kind);
                    assert(!pattern_compiles(detector_table()[i as int].1));
                    return Err(e);
                },
            }
            i += 1;
        }
        Ok(Battery { compiled })
    }

    /// Applies every occurrence detector to `line`. Every text found is a
    /// piece of the line.
    pub fn find_each(&self, line: &str) -> (r: Vec<Vec<String>>)
        ensures
            r.deep_view() == battery_findings(line@),
            forall|j: int| 0 <= j < r.len() ==> all_within(line@, (#[trigger] r[j]).deep_view()),
    {
        proof {
            use_type_invariant(self);
        }
        let mut found: Vec<Vec<String>> = Vec::new();
        let mut i: usize = 0;
        while i < self.compiled.len()
            invariant
                i <= self.compiled.len(),
                self.compiled.len() == detector_table().len(),
                forall|j: int|
                    0 <= j < self.compiled.len() ==> finds_like(
                        #[trigger] self.compiled[j],
                        detector_table()[j].1,
                    ),
                found.len() == i,
                forall|j: int|
                    0 <= j < i ==> (#[trigger] found[j]).deep_view() == pattern_occurrences(
                        detector_table()[j].1,
                        line@,
                    ),
                forall|j: int| 0 <= j < i ==> all_within(line@, (#[trigger] found[j]).deep_view()),
            decreases self.compiled.len() - i,
        {
            let texts = find_all(&self.compiled[i], line);
            found.push(texts);
            i += 1;
        }
        assert(found.deep_view() =~= battery_findings(line@));
        found
    }
}

} // verus!
