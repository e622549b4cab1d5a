//! The detector battery as a whole: which candidates a line gives rise to.
//! Occurrence detectors run first, in table order; the whole-line detectors
//! follow in a fixed order; a line that nothing detects is a regular string.

use vstd::prelude::*;
use crate::heuristics::{
    cpp_exception_line, go_panic_line, is_cpp_exception, is_go_panic, is_java_stacktrace,
    is_javascript_error, is_json, is_junk, is_python_traceback, is_rust_panic, is_xml,
    java_stacktrace_line, javascript_error_line, json_line, junk_line, python_traceback_line,
    rust_panic_line, xml_line,
};
use crate::patterns::{battery_findings, detector_table, occurrence_detectors, Battery};
use crate::taxonomy::StringType;
use crate::text::{all_within, contains_text, occurs_at};

verus! {

/// A detection candidate as a mathematical value: a kind, and the matched
/// text as a sequence of characters.
pub type Candidate = (StringType, Seq<char>);

/// The candidates that a vector of (kind, text) pairs stands for.
pub open spec fn candidates_view(v: Seq<(StringType, String)>) -> Seq<Candidate> {
    Seq::new(v.len(), |i: int| (v[i].0, v[i].1@))
}

/// Each of `texts`, in order, as a candidate of kind `kind`.
pub open spec fn tagged(kind: StringType, texts: Seq<Seq<char>>) -> Seq<Candidate> {
    Seq::new(texts.len(), |i: int| (kind, texts[i]))
}

/// What detector `i` found, or nothing where `found` has no entry for it.
pub open spec fn found_at(found: Seq<Seq<Seq<char>>>, i: int) -> Seq<Seq<char>> {
    if 0 <= i < found.len() {
        found[i]
    } else {
        Seq::empty()
    }
}

/// The candidates of the first `upto` occurrence detectors, given what each
/// detector found: detector by detector in table order, and within one
/// detector from left to right.
pub open spec fn occurrence_candidates(found: Seq<Seq<Seq<char>>>, upto: nat) -> Seq<Candidate>
    decreases upto,
{
    if upto == 0 {
        Seq::empty()
    } else {
        occurrence_candidates(found, (upto - 1) as nat) + tagged(
            detector_table()[upto - 1].0,
            found_at(found, upto - 1),
        )
    }
}

/// One candidate holding the whole line if `fires`, none otherwise.
pub open spec fn whole_line(fires: bool, kind: StringType, line: Seq<char>) -> Seq<Candidate> {
    if fires {
        seq![(kind, line)]
    } else {
        Seq::empty()
    }
}

/// `base` followed by the candidates of the whole-line detectors, in their
/// fixed order: the crash and trace formats of the language runtimes, then
/// structured data, then junk. The detectors are independent: any number of
/// them may fire on one line.
pub open spec fn with_heuristics(base: Seq<Candidate>, line: Seq<char>) -> Seq<Candidate> {
    base
        + whole_line(cpp_exception_line(line), StringType::CppExceptionString, line)
        + whole_line(python_traceback_line(line), StringType::PythonTracebackString, line)
        + whole_line(java_stacktrace_line(line), StringType::JavaStackTraceString, line)
        + whole_line(javascript_error_line(line), StringType::JavaScriptErrorString, line)
        + whole_line(go_panic_line(line), StringType::GoPanicString, line)
        + whole_line(rust_panic_line(line), StringType::RustPanicString, line)
        + whole_line(json_line(line), StringType::JSONString, line)
        + whole_line(xml_line(line), StringType::XMLString, line)
        + whole_line(junk_line(line), StringType::JunkString, line)
}

/// What the detectors produce for a line, before the fallback: the
/// candidates of the occurrence detectors, then those of the whole-line
/// detectors.
pub open spec fn detected(line: Seq<char>, found: Seq<Seq<Seq<char>>>) -> Seq<Candidate> {
    with_heuristics(occurrence_candidates(found, detector_table().len()), line)
}

/// The complete list of candidates of a line, given what each occurrence
/// detector found in it.
pub open spec fn line_candidates(line: Seq<char>, found: Seq<Seq<Seq<char>>>) -> Seq<Candidate> {
    if detected(line, found).len() == 0 {
        seq![(StringType::RegularString, line)]
    } else {
        detected(line, found)
    }
}

/// No detector has anything to say about the line: no occurrence detector
/// found a match, and no whole-line detector fires.
pub open spec fn nothing_detected(line: Seq<char>, found: Seq<Seq<Seq<char>>>) -> bool {
    &&& forall|i: int| 0 <= i < detector_table().len() ==> (#[trigger] found_at(found, i)).len() == 0
    &&& !cpp_exception_line(line)
    &&& !python_traceback_line(line)
    &&& !java_stacktrace_line(line)
    &&& !javascript_error_line(line)
    &&& !go_panic_line(line)
    &&& !rust_panic_line(line)
    &&& !json_line(line)
    &&& !xml_line(line)
    &&& !junk_line(line)
}

proof fn lemma_no_occurrences(found: Seq<Seq<Seq<char>>>, upto: nat)
    requires
        upto <= detector_table().len(),
        forall|i: int| 0 <= i < upto ==> (#[trigger] found_at(found, i)).len() == 0,
    ensures
        occurrence_candidates(found, upto).len() == 0,
    decreases upto,
{
    if upto > 0 {
        lemma_no_occurrences(found, (upto - 1) as nat);
        assert(found_at(found, upto - 1).len() == 0);
    }
}

/// A line about which no detector has anything to say yields exactly one
/// candidate: the whole line, verbatim, as a regular string.
pub proof fn lemma_undetected_line_is_regular(line: Seq<char>, found: Seq<Seq<Seq<char>>>)
    requires
        nothing_detected(line, found),
    ensures
        line_candidates(line, found) == seq![(StringType::RegularString, line)],
{
    lemma_no_occurrences(found, detector_table().len());
}

/// No candidate of `s` is a regular string.
pub open spec fn none_regular(s: Seq<Candidate>) -> bool {
    forall|i: int| 0 <= i < s.len() ==> (#[trigger] s[i]).0 != StringType::RegularString
}

proof fn lemma_none_regular_add(a: Seq<Candidate>, b: Seq<Candidate>)
    requires
        none_regular(a),
        none_regular(b),
    ensures
        none_regular(a + b),
{
    assert forall|i: int| 0 <= i < (a + b).len() implies (#[trigger] (a + b)[i]).0
        != StringType::RegularString by {
        if i < a.len() {
            assert((a + b)[i] == a[i]);
        } else {
            assert((a + b)[i] == b[i - a.len()]);
        }
    }
}

proof fn lemma_occurrences_none_regular(found: Seq<Seq<Seq<char>>>, upto: nat)
    requires
        upto <= detector_table().len(),
    ensures
        none_regular(occurrence_candidates(found, upto)),
    decreases upto,
{
    if upto > 0 {
        lemma_occurrences_none_regular(found, (upto - 1) as nat);
        let kind = detector_table()[upto - 1].0;
        assert(kind != StringType::RegularString);
        lemma_none_regular_add(
            occurrence_candidates(found, (upto - 1) as nat),
            tagged(kind, found_at(found, upto - 1)),
        );
    }
}

/// A line about which some detector has something to say gets no fallback:
/// its candidates are what was detected, and none of them is a regular
/// string.
pub proof fn lemma_detected_line_has_no_fallback(line: Seq<char>, found: Seq<Seq<Seq<char>>>)
    requires
        detected(line, found).len() > 0,
    ensures
        line_candidates(line, found) == detected(line, found),
        none_regular(line_candidates(line, found)),
{
    let c0 = occurrence_candidates(found, detector_table().len());
    lemma_occurrences_none_regular(found, detector_table().len());
    let w1 = whole_line(cpp_exception_line(line), StringType::CppExceptionString, line);
    let w2 = whole_line(python_traceback_line(line), StringType::PythonTracebackString, line);
    let w3 = whole_line(java_stacktrace_line(line), StringType::JavaStackTraceString, line);
    let w4 = whole_line(javascript_error_line(line), StringType::JavaScriptErrorString, line);
    let w5 = whole_line(go_panic_line(line), StringType::GoPanicString, line);
    let w6 = whole_line(rust_panic_line(line), StringType::RustPanicString, line);
    let w7 = whole_line(json_line(line), StringType::JSONString, line);
    let w8 = whole_line(xml_line(line), StringType::XMLString, line);
    let w9 = whole_line(junk_line(line), StringType::JunkString, line);
    lemma_none_regular_add(c0, w1);
    lemma_none_regular_add(c0 + w1, w2);
    lemma_none_regular_add(c0 + w1 + w2, w3);
    lemma_none_regular_add(c0 + w1 + w2 + w3, w4);
    lemma_none_regular_add(c0 + w1 + w2 + w3 + w4, w5);
    lemma_none_regular_add(c0 + w1 + w2 + w3 + w4 + w5, w6);
    lemma_none_regular_add(c0 + w1 + w2 + w3 + w4 + w5 + w6, w7);
    lemma_none_regular_add(c0 + w1 + w2 + w3 + w4 + w5 + w6 + w7, w8);
    lemma_none_regular_add(c0 + w1 + w2 + w3 + w4 + w5 + w6 + w7 + w8, w9);
}

/// The text of every candidate of `s` stands somewhere in `line`.
pub open spec fn texts_within(line: Seq<char>, s: Seq<Candidate>) -> bool {
    forall|i: int| 0 <= i < s.len() ==> contains_text(line, (#[trigger] s[i]).1)
}

/// Every detector of the table found only pieces of the line.
pub open spec fn found_within(line: Seq<char>, found: Seq<Seq<Seq<char>>>) -> bool {
    forall|j: int| 0 <= j < detector_table().len() ==> all_within(line, #[trigger] found_at(found, j))
}

proof fn lemma_texts_within_add(line: Seq<char>, a: Seq<Candidate>, b: Seq<Candidate>)
    requires
        texts_within(line, a),
        texts_within(line, b),
    ensures
        texts_within(line, a + b),
{
    assert forall|i: int| 0 <= i < (a + b).len() implies contains_text(
        line,
        (#[trigger] (a + b)[i]).1,
    ) by {
        if i < a.len() {
            assert((a + b)[i] == a[i]);
        } else {
            assert((a + b)[i] == b[i - a.len()]);
        }
    }
}

proof fn lemma_occurrences_within(line: Seq<char>, found: Seq<Seq<Seq<char>>>, upto: nat)
    requires
        upto <= detector_table().len(),
        found_within(line, found),
    ensures
        texts_within(line, occurrence_candidates(found, upto)),
    decreases upto,
{
    if upto > 0 {
        lemma_occurrences_within(line, found, (upto - 1) as nat);
        let texts = found_at(found, upto - 1);
        let last = tagged(detector_table()[upto - 1].0, texts);
        assert(all_within(line, texts));
        assert forall|i: int| 0 <= i < last.len() implies contains_text(
            line,
            (#[trigger] last[i]).1,
        ) by {
            assert(last[i].1 == texts[i]);
        }
        lemma_texts_within_add(line, occurrence_candidates(found, (upto - 1) as nat), last);
    }
}

proof fn lemma_whole_line_within(
    line: Seq<char>,
    base: Seq<Candidate>,
    fires: bool,
    kind: StringType,
)
    requires
        texts_within(line, base),
    ensures
        texts_within(line, base + whole_line(fires, kind, line)),
{
    assert(occurs_at(line, line, 0)) by {
        assert(line.subrange(0, line.len() as int) =~= line);
    }
    lemma_texts_within_add(line, base, whole_line(fires, kind, line));
}

proof fn lemma_flagged_lines_within(line: Seq<char>, base: Seq<Candidate>, fires: Seq<bool>)
    requires
        texts_within(line, base),
        fires.len() == 9,
    ensures
        texts_within(
            line,
            base
                + whole_line(fires[0], StringType::CppExceptionString, line)
                + whole_line(fires[1], StringType::PythonTracebackString, line)
                + whole_line(fires[2], StringType::JavaStackTraceString, line)
                + whole_line(fires[3], StringType::JavaScriptErrorString, line)
                + whole_line(fires[4], StringType::GoPanicString, line)
                + whole_line(fires[5], StringType::RustPanicString, line)
                + whole_line(fires[6], StringType::JSONString, line)
                + whole_line(fires[7], StringType::XMLString, line)
                + whole_line(fires[8], StringType::JunkString, line),
        ),
{
    let c1 = base + whole_line(fires[0], StringType::CppExceptionString, line);
    lemma_whole_line_within(line, base, fires[0], StringType::CppExceptionString);
    let c2 = c1 + whole_line(fires[1], StringType::PythonTracebackString, line);
    lemma_whole_line_within(line, c1, fires[1], StringType::PythonTracebackString);
    let c3 = c2 + whole_line(fires[2], StringType::JavaStackTraceString, line);
    lemma_whole_line_within(line, c2, fires[2], StringType::JavaStackTraceString);
    let c4 = c3 + whole_line(fires[3], StringType::JavaScriptErrorString, line);
    lemma_whole_line_within(line, c3, fires[3], StringType::JavaScriptErrorString);
    let c5 = c4 + whole_line(fires[4], StringType::GoPanicString, line);
    lemma_whole_line_within(line, c4, fires[4], StringType::GoPanicString);
    let c6 = c5 + whole_line(fires[5], StringType::RustPanicString, line);
    lemma_whole_line_within(line, c5, fires[5], StringType::RustPanicString);
    let c7 = c6 + whole_line(fires[6], StringType::JSONString, line);
    lemma_whole_line_within(line, c6, fires[6], StringType::JSONString);
    let c8 = c7 + whole_line(fires[7], StringType::XMLString, line);
    lemma_whole_line_within(line, c7, fires[7], StringType::XMLString);
    lemma_whole_line_within(line, c8, fires[8], StringType::JunkString);
}

/// Where every occurrence detector found only pieces of the line, the text
/// of every candidate of the line is a piece of the line: a matched piece,
/// or the line itself.
pub proof fn lemma_candidates_lie_within(line: Seq<char>, found: Seq<Seq<Seq<char>>>)
    requires
        found_within(line, found),
    ensures
        texts_within(line, line_candidates(line, found)),
{
    lemma_occurrences_within(line, found, detector_table().len());
    lemma_flagged_lines_within(
        line,
        occurrence_candidates(found, detector_table().len()),
        seq![
            cpp_exception_line(line),
            python_traceback_line(line),
            java_stacktrace_line(line),
            javascript_error_line(line),
            go_panic_line(line),
            rust_panic_line(line),
            json_line(line),
            xml_line(line),
            junk_line(line),
        ],
    );
    lemma_whole_line_within(line, Seq::empty(), true, StringType::RegularString);
    assert(Seq::<Candidate>::empty() + whole_line(true, StringType::RegularString, line) =~= seq![
        (StringType::RegularString, line),
    ]);
}

/// The texts of those candidates of `s`, in order, that are of kind `kind`.
pub open spec fn texts_of_kind(s: Seq<Candidate>, kind: StringType) -> Seq<Seq<char>>
    decreases s.len(),
{
    if s.len() == 0 {
        Seq::empty()
    } else {
        let before = texts_of_kind(s.drop_last(), kind);
        if s.last().0 == kind {
            before.push(s.last().1)
        } else {
            before
        }
    }
}

proof fn lemma_texts_of_kind_add(a: Seq<Candidate>, b: Seq<Candidate>, kind: StringType)
    ensures
        texts_of_kind(a + b, kind) == texts_of_kind(a, kind) + texts_of_kind(b, kind),
    decreases b.len(),
{
    if b.len() == 0 {
        assert(a + b =~= a);
        assert(texts_of_kind(a, kind) + texts_of_kind(b, kind) =~= texts_of_kind(a, kind));
    } else {
        lemma_texts_of_kind_add(a, b.drop_last(), kind);
        assert((a + b).drop_last() =~= a + b.drop_last());
        assert((a + b).last() == b.last());
        assert(texts_of_kind(a + b, kind) =~= texts_of_kind(a, kind) + texts_of_kind(b, kind));
    }
}

proof fn lemma_texts_of_kind_tagged(tag: StringType, texts: Seq<Seq<char>>, kind: StringType)
    ensures
        texts_of_kind(tagged(tag, texts), kind) == if tag == kind {
            texts
        } else {
            Seq::empty()
        },
    decreases texts.len(),
{
    if texts.len() > 0 {
        lemma_texts_of_kind_tagged(tag, texts.drop_last(), kind);
        assert(tagged(tag, texts).drop_last() =~= tagged(tag, texts.drop_last()));
        assert(tagged(tag, texts).last() == (tag, texts.last()));
        if tag == kind {
            assert(texts.drop_last().push(texts.last()) =~= texts);
        }
    } else {
        assert(texts =~= Seq::<Seq<char>>::empty());
    }
}

proof fn lemma_texts_of_kind_whole_line(
    base: Seq<Candidate>,
    fires: bool,
    tag: StringType,
    line: Seq<char>,
    kind: StringType,
)
    ensures
        texts_of_kind(base + whole_line(fires, tag, line), kind) == if fires && tag == kind {
            texts_of_kind(base, kind).push(line)
        } else {
            texts_of_kind(base, kind)
        },
{
    let added = whole_line(fires, tag, line);
    let none = Seq::<Seq<char>>::empty();
    lemma_texts_of_kind_add(base, added, kind);
    assert(texts_of_kind(Seq::<Candidate>::empty(), kind) == none);
    if fires {
        assert(added.drop_last() =~= Seq::<Candidate>::empty());
        assert(added.last() == (tag, line));
        assert(texts_of_kind(added.drop_last(), kind) == none);
        if tag == kind {
            assert(texts_of_kind(added, kind) == none.push(line));
            assert(texts_of_kind(base, kind) + none.push(line) =~= texts_of_kind(base, kind).push(
                line,
            ));
        } else {
            assert(texts_of_kind(added, kind) == none);
            assert(texts_of_kind(base, kind) + none =~= texts_of_kind(base, kind));
        }
    } else {
        assert(texts_of_kind(added, kind) == none);
        assert(texts_of_kind(base, kind) + none =~= texts_of_kind(base, kind));
    }
}

/// No kind has two detectors in the table.
proof fn lemma_table_kinds_differ(i: int, j: int)
    requires
        0 <= i < detector_table().len(),
        0 <= j < detector_table().len(),
        i != j,
    ensures
        detector_table()[i].0 != detector_table()[j].0,
{
    assert(detector_table()[i].0.rank_of() != detector_table()[j].0.rank_of());
}

proof fn lemma_occurrences_of_kind(found: Seq<Seq<Seq<char>>>, upto: nat, i: int)
    requires
        upto <= detector_table().len(),
        0 <= i < detector_table().len(),
    ensures
        texts_of_kind(occurrence_candidates(found, upto), detector_table()[i].0) == if i < upto {
            found_at(found, i)
        } else {
            Seq::empty()
        },
    decreases upto,
{
    if upto > 0 {
        let kind = detector_table()[i].0;
        let tag = detector_table()[upto - 1].0;
        let before = occurrence_candidates(found, (upto - 1) as nat);
        let last = tagged(tag, found_at(found, upto - 1));
        lemma_occurrences_of_kind(found, (upto - 1) as nat, i);
        lemma_texts_of_kind_add(before, last, kind);
        lemma_texts_of_kind_tagged(tag, found_at(found, upto - 1), kind);
        if i == upto - 1 {
            assert(Seq::<Seq<char>>::empty() + found_at(found, i) =~= found_at(found, i));
        } else {
            lemma_table_kinds_differ(i, upto - 1);
            assert(texts_of_kind(before, kind) + Seq::<Seq<char>>::empty() =~= texts_of_kind(
                before,
                kind,
            ));
        }
    }
}

/// A kind that has a detector in the table has no whole-line detector, and
/// is not the kind of regular strings.
proof fn lemma_table_kinds_are_occurrence_kinds(i: int)
    requires
        0 <= i < detector_table().len(),
    ensures
        detector_table()[i].0 != StringType::CppExceptionString,
        detector_table()[i].0 != StringType::PythonTracebackString,
        detector_table()[i].0 != StringType::JavaStackTraceString,
        detector_table()[i].0 != StringType::JavaScriptErrorString,
        detector_table()[i].0 != StringType::GoPanicString,
        detector_table()[i].0 != StringType::RustPanicString,
        detector_table()[i].0 != StringType::JSONString,
        detector_table()[i].0 != StringType::XMLString,
        detector_table()[i].0 != StringType::JunkString,
        detector_table()[i].0 != StringType::RegularString,
{
}

proof fn lemma_flagged_lines_of_kind(
    line: Seq<char>,
    base: Seq<Candidate>,
    fires: Seq<bool>,
    kind: StringType,
)
    requires
        fires.len() == 9,
        kind != StringType::CppExceptionString,
        kind != StringType::PythonTracebackString,
        kind != StringType::JavaStackTraceString,
        kind != StringType::JavaScriptErrorString,
        kind != StringType::GoPanicString,
        kind != StringType::RustPanicString,
        kind != StringType::JSONString,
        kind != StringType::XMLString,
        kind != StringType::JunkString,
    ensures
        texts_of_kind(
            base
                + whole_line(fires[0], StringType::CppExceptionString, line)
                + whole_line(fires[1], StringType::PythonTracebackString, line)
                + whole_line(fires[2], StringType::JavaStackTraceString, line)
                + whole_line(fires[3], StringType::JavaScriptErrorString, line)
                + whole_line(fires[4], StringType::GoPanicString, line)
                + whole_line(fires[5], StringType::RustPanicString, line)
                + whole_line(fires[6], StringType::JSONString, line)
                + whole_line(fires[7], StringType::XMLString, line)
                + whole_line(fires[8], StringType::JunkString, line),
            kind,
        ) == texts_of_kind(base, kind),
{
    let c1 = base + whole_line(fires[0], StringType::CppExceptionString, line);
    lemma_texts_of_kind_whole_line(base, fires[0], StringType::CppExceptionString, line, kind);
    let c2 = c1 + whole_line(fires[1], StringType::PythonTracebackString, line);
    lemma_texts_of_kind_whole_line(c1, fires[1], StringType::PythonTracebackString, line, kind);
    let c3 = c2 + whole_line(fires[2], StringType::JavaStackTraceString, line);
    lemma_texts_of_kind_whole_line(c2, fires[2], StringType::JavaStackTraceString, line, kind);
    let c4 = c3 + whole_line(fires[3], StringType::JavaScriptErrorString, line);
    lemma_texts_of_kind_whole_line(c3, fires[3], StringType::JavaScriptErrorString, line, kind);
    let c5 = c4 + whole_line(fires[4], StringType::GoPanicString, line);
    lemma_texts_of_kind_whole_line(c4, fires[4], StringType::GoPanicString, line, kind);
    let c6 = c5 + whole_line(fires[5], StringType::RustPanicString, line);
    lemma_texts_of_kind_whole_line(c5, fires[5], StringType::RustPanicString, line, kind);
    let c7 = c6 + whole_line(fires[6], StringType::JSONString, line);
    lemma_texts_of_kind_whole_line(c6, fires[6], StringType::JSONString, line, kind);
    let c8 = c7 + whole_line(fires[7], StringType::XMLString, line);
    lemma_texts_of_kind_whole_line(c7, fires[7], StringType::XMLString, line, kind);
    lemma_texts_of_kind_whole_line(c8, fires[8], StringType::JunkString, line, kind);
}

/// The candidates of the kind of a detector are exactly what that detector
/// found, in the order in which it found them: no other detector adds to
/// them or takes from them.
pub proof fn lemma_detector_accounts_for_its_kind(
    line: Seq<char>,
    found: Seq<Seq<Seq<char>>>,
    i: int,
)
    requires
        0 <= i < detector_table().len(),
    ensures
        texts_of_kind(line_candidates(line, found), detector_table()[i].0) == found_at(found, i),
{
    let kind = detector_table()[i].0;
    let base = occurrence_candidates(found, detector_table().len());
    lemma_table_kinds_are_occurrence_kinds(i);
    lemma_occurrences_of_kind(found, detector_table().len(), i);
    lemma_flagged_lines_of_kind(
        line,
        base,
        seq![
            cpp_exception_line(line),
            python_traceback_line(line),
            java_stacktrace_line(line),
            javascript_error_line(line),
            go_panic_line(line),
            rust_panic_line(line),
            json_line(line),
            xml_line(line),
            junk_line(line),
        ],
        kind,
    );
    assert(texts_of_kind(detected(line, found), kind) == found_at(found, i));
    if detected(line, found).len() == 0 {
        let only = seq![(StringType::RegularString, line)];
        assert(only.drop_last() =~= Seq::<Candidate>::empty());
        assert(texts_of_kind(only.drop_last(), kind) == Seq::<Seq<char>>::empty());
        assert(texts_of_kind(only, kind) == Seq::<Seq<char>>::empty());
        assert(texts_of_kind(detected(line, found), kind) == Seq::<Seq<char>>::empty());
    }
}

/// Each digest kind goes by its own detector alone: the candidates of the
/// 512-bit, 256-bit, 160-bit and 128-bit digest kinds are what the pattern
/// of that length found, whatever the patterns of the other lengths found.
/// So a line in which only the 256-bit pattern finds a digest has that
/// digest under the 256-bit kind and nothing under the other three.
pub proof fn lemma_digest_kinds_go_by_length(line: Seq<char>, found: Seq<Seq<Seq<char>>>)
    ensures
        texts_of_kind(line_candidates(line, found), StringType::SHA512HashString) == found_at(
            found,
            18,
        ),
        texts_of_kind(line_candidates(line, found), StringType::SHA256HashString) == found_at(
            found,
            19,
        ),
        texts_of_kind(line_candidates(line, found), StringType::SHA1HashString) == found_at(
            found,
            20,
        ),
        texts_of_kind(line_candidates(line, found), StringType::MD5HashString) == found_at(
            found,
            21,
        ),
{
    lemma_detector_accounts_for_its_kind(line, found, 18);
    lemma_detector_accounts_for_its_kind(line, found, 19);
    lemma_detector_accounts_for_its_kind(line, found, 20);
    lemma_detector_accounts_for_its_kind(line, found, 21);
}

/// Appends the whole line as a candidate of kind `kind` if `fires`.
fn push_whole_line(matches: &mut Vec<(StringType, String)>, fires: bool, kind: StringType, line: &str)
    ensures
        candidates_view(final(matches)@) == candidates_view(old(matches)@) + whole_line(
            fires,
            kind,
            line@,
        ),
{
    if fires {
        matches.push((kind, line.to_owned()));
    }
    assert(candidates_view(matches@) =~= candidates_view(old(matches)@) + whole_line(
        fires,
        kind,
        line@,
    ));
}

/// Appends each of `texts`, in order, as a candidate of kind `kind`.
fn push_tagged(matches: &mut Vec<(StringType, String)>, kind: StringType, texts: &Vec<String>)
    ensures
        candidates_view(final(matches)@) == candidates_view(old(matches)@) + tagged(
            kind,
            texts.deep_view(),
        ),
{
    let mut k: usize = 0;
    while k < texts.len()
        invariant
            k <= texts.len(),
            candidates_view(matches@) == candidates_view(old(matches)@) + tagged(
                kind,
                texts.deep_view().take(k as int),
            ),
        decreases texts.len() - k,
    {
        let ghost before = candidates_view(matches@);
        matches.push((kind, texts[k].clone()));
        assert(candidates_view(matches@) =~= before + seq![(kind, texts[k as int]@)]);
        assert(tagged(kind, texts.deep_view().take(k + 1)) =~= tagged(
            kind,
            texts.deep_view().take(k as int),
        ) + seq![(kind, texts[k as int]@)]);
        k += 1;
    }
    assert(texts.deep_view().take(k as int) =~= texts.deep_view());
}

/// Builds the candidates of a line from what each occurrence detector found
/// in it: `found` holds one list of matched texts per detector, in table
/// order. A detector for which `found` has no list counts as having found
/// nothing.
pub fn assemble_candidates(line: &str, found: &Vec<Vec<String>>) -> (r: Vec<(StringType, String)>)
    ensures
        candidates_view(r@) == line_candidates(line@, found.deep_view()),
        r.len() > 0,
        nothing_detected(line@, found.deep_view()) ==> candidates_view(r@) == seq![
            (StringType::RegularString, line@),
        ],
        found_within(line@, found.deep_view()) ==> texts_within(line@, candidates_view(r@)),
{
    let table = occurrence_detectors();
    let mut matches: Vec<(StringType, String)> = Vec::new();
    let mut i: usize = 0;
    assert(candidates_view(matches@) =~= occurrence_candidates(found.deep_view(), 0));
    while i < table.len()
        invariant
            i <= table.len(),
            table.len() == detector_table().len(),
            forall|j: int|
                0 <= j < table.len() ==> (#[trigger] table[j]).0 == detector_table()[j].0,
            candidates_view(matches@) == occurrence_candidates(found.deep_view(), i as nat),
        decreases table.len() - i,
    {
        if i < found.len() {
            push_tagged(&mut matches, table[i].0, &found[i]);
            assert(found_at(found.deep_view(), i as int) == found[i as int].deep_view());
        } else {
            assert(tagged(table[i as int].0, found_at(found.deep_view(), i as int)) =~= Seq::empty());
            assert(candidates_view(matches@) + Seq::<Candidate>::empty() =~= candidates_view(
                matches@,
            ));
        }
        i += 1;
    }
    push_whole_line(&mut matches, is_cpp_exception(line), StringType::CppExceptionString, line);
    push_whole_line(
        &mut matches,
        is_python_traceback(line),
        StringType::PythonTracebackString,
        line,
    );
    push_whole_line(&mut matches, is_java_stacktrace(line), StringType::JavaStackTraceString, line);
    push_whole_line(
        &mut matches,
        is_javascript_error(line),
        StringType::JavaScriptErrorString,
        line,
    );
    push_whole_line(&mut matches, is_go_panic(line), StringType::GoPanicString, line);
    push_whole_line(&mut matches, is_rust_panic(line), StringType::RustPanicString, line);
    push_whole_line(&mut matches, is_json(line), StringType::JSONString, line);
    push_whole_line(&mut matches, is_xml(line), StringType::XMLString, line);
    push_whole_line(&mut matches, is_junk(line), StringType::JunkString, line);
    assert(candidates_view(matches@) == detected(line@, found.deep_view()));
    if matches.len() == 0 {
        matches.push((StringType::RegularString, line.to_owned()));
        assert(candidates_view(matches@) =~= seq![(StringType::RegularString, line@)]);
    }
    proof {
        if nothing_detected(line@, found.deep_view()) {
            lemma_undetected_line_is_regular(line@, found.deep_view());
        }
        if found_within(line@, found.deep_view()) {
            lemma_candidates_lie_within(line@, found.deep_view());
        }
    }
    matches
}

/// The complete list of candidates of a line: every occurrence of every
/// pattern of the battery, then the whole line once for each whole-line
/// detector that fires, or the whole line as a regular string if there is
/// nothing else. The text of every candidate is a piece of the line.
pub fn extract_all_matches(battery: &Battery, line: &str) -> (r: Vec<(StringType, String)>)
    ensures
        candidates_view(r@) == line_candidates(line@, battery_findings(line@)),
        r.len() > 0,
        nothing_detected(line@, battery_findings(line@)) ==> candidates_view(r@) == seq![
            (StringType::RegularString, line@),
        ],
        texts_within(line@, candidates_view(r@)),
{
    let found = battery.find_each(line);
    assert forall|j: int| 0 <= j < detector_table().len() implies all_within(
        line@,
        #[trigger] found_at(found.deep_view(), j),
    ) by {
        assert(found_at(found.deep_view(), j) == found[j].deep_view());
    }
    assemble_candidates(line, &found)
}

} // verus!
