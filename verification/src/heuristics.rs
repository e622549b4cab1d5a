//! The whole-line detectors: predicates over an entire line that recognise
//! crash and trace formats of several language runtimes, structured data,
//! and lines that are mostly control characters.

use vstd::prelude::*;
use crate::text::{
    char_is_control, char_is_uppercase, char_is_whitespace, chars_of, contains_str, contains_text,
    is_control, is_uppercase, is_whitespace,
};

verus! {

/// Position `at` holds the first character of `line` that is not whitespace.
pub open spec fn first_visible_at(line: Seq<char>, at: int) -> bool {
    &&& 0 <= at < line.len()
    &&& !char_is_whitespace(line[at])
    &&& forall|j: int| 0 <= j < at ==> char_is_whitespace(#[trigger] line[j])
}

/// After its leading whitespace, `line` starts with the character `c`.
pub open spec fn begins_with(line: Seq<char>, c: char) -> bool {
    exists|at: int| first_visible_at(line, at) && line[at] == c
}

/// A line that starts, after leading whitespace, like a JSON object or array.
pub open spec fn json_line(line: Seq<char>) -> bool {
    begins_with(line, '{') || begins_with(line, '[')
}

/// A line that starts, after leading whitespace, like an XML tag.
pub open spec fn xml_line(line: Seq<char>) -> bool {
    begins_with(line, '<')
}

/// A line of a C++ runtime's report of an uncaught exception.
pub open spec fn cpp_exception_line(line: Seq<char>) -> bool {
    ||| contains_text(line, "terminate called after throwing"@)
    ||| contains_text(line, "what():"@)
    ||| contains_text(line, "std::exception"@)
}

/// A line of a Python traceback: its header, a frame, or an error message
/// on a line whose first character is an uppercase letter.
pub open spec fn python_traceback_line(line: Seq<char>) -> bool {
    ||| contains_text(line, "Traceback (most recent call last)"@)
    ||| (contains_text(line, "File \""@) && contains_text(line, ", line "@))
    ||| (contains_text(line, "Error:"@) && line.len() > 0 && char_is_uppercase(line[0]))
}

/// A line of a Java stack trace.
pub open spec fn java_stacktrace_line(line: Seq<char>) -> bool {
    ||| (contains_text(line, "at "@) && contains_text(line, ".java:"@))
    ||| contains_text(line, "Exception in thread"@)
    ||| contains_text(line, "Caused by:"@)
}

/// A line of a JavaScript error report.
pub open spec fn javascript_error_line(line: Seq<char>) -> bool {
    ||| contains_text(line, "Uncaught"@)
    ||| contains_text(line, "ReferenceError:"@)
    ||| contains_text(line, "TypeError:"@)
    ||| (contains_text(line, "at "@) && contains_text(line, ".js:"@))
}

/// A line of a Go panic report.
pub open spec fn go_panic_line(line: Seq<char>) -> bool {
    ||| contains_text(line, "panic:"@)
    ||| contains_text(line, "goroutine "@)
    ||| contains_text(line, "runtime error:"@)
}

/// A line of a Rust panic message.
pub open spec fn rust_panic_line(line: Seq<char>) -> bool {
    ||| contains_text(line, "panicked at"@)
    ||| (contains_text(line, "thread '"@) && contains_text(line, "' panicked"@))
}

/// A control character other than the tab.
pub open spec fn is_noise(c: char) -> bool {
    char_is_control(c) && c != '\t'
}

/// How many characters of `line` are control characters other than the tab.
pub open spec fn noise_count(line: Seq<char>) -> nat
    decreases line.len(),
{
    if line.len() == 0 {
        0
    } else {
        noise_count(line.drop_last()) + if is_noise(line.last()) {
            1nat
        } else {
            0nat
        }
    }
}

/// More than a quarter of the characters of `line` are control characters
/// other than the tab.
pub open spec fn junk_line(line: Seq<char>) -> bool {
    4 * noise_count(line) > line.len()
}

/// Whether the first character after the leading whitespace is `a` or `b`.
fn begins_with_either(line: &Vec<char>, a: char, b: char) -> (r: bool)
    ensures
        r == (begins_with(line@, a) || begins_with(line@, b)),
{
    let mut at: usize = 0;
    while at < line.len() && is_whitespace(line[at])
        invariant
            at <= line.len(),
            forall|j: int| 0 <= j < at ==> char_is_whitespace(#[trigger] line@[j]),
        decreases line.len() - at,
    {
        at += 1;
    }
    if at < line.len() {
        assert(first_visible_at(line@, at as int));
        assert forall|k: int| first_visible_at(line@, k) implies k == at by {
            if k < at {
                assert(char_is_whitespace(line@[k]));
            } else if k > at {
                assert(char_is_whitespace(line@[at as int]));
            }
        }
        line[at] == a || line[at] == b
    } else {
        assert forall|k: int| !first_visible_at(line@, k) by {
            if 0 <= k < line.len() {
                assert(char_is_whitespace(line@[k]));
            }
        }
        false
    }
}

/// Whether a line looks like JSON: it starts, after leading whitespace,
/// with `{` or `[`.
pub fn is_json(line: &str) -> (r: bool)
    ensures
        r == json_line(line@),
{
    let chars = chars_of(line);
    begins_with_either(&chars, '{', '[')
}

/// Whether a line looks like XML: it starts, after leading whitespace,
/// with `<`.
pub fn is_xml(line: &str) -> (r: bool)
    ensures
        r == xml_line(line@),
{
    let chars = chars_of(line);
    begins_with_either(&chars, '<', '<')
}

/// Whether a line belongs to a C++ runtime's report of an uncaught exception.
pub fn is_cpp_exception(line: &str) -> (r: bool)
    ensures
        r == cpp_exception_line(line@),
{
    let chars = chars_of(line);
    contains_str(&chars, "terminate called after throwing") || contains_str(&chars, "what():")
        || contains_str(&chars, "std::exception")
}

/// Whether a line belongs to a Python traceback.
pub fn is_python_traceback(line: &str) -> (r: bool)
    ensures
        r == python_traceback_line(line@),
{
    let chars = chars_of(line);
    contains_str(&chars, "Traceback (most recent call last)") || (contains_str(&chars, "File \"")
        && contains_str(&chars, ", line ")) || (contains_str(&chars, "Error:") && chars.len() > 0
        && is_uppercase(chars[0]))
}

/// Whether a line belongs to a Java stack trace.
pub fn is_java_stacktrace(line: &str) -> (r: bool)
    ensures
        r == java_stacktrace_line(line@),
{
    let chars = chars_of(line);
    (contains_str(&chars, "at ") && contains_str(&chars, ".java:")) || contains_str(
        &chars,
        "Exception in thread",
    ) || contains_str(&chars, "Caused by:")
}

/// Whether a line belongs to a JavaScript error report.
pub fn is_javascript_error(line: &str) -> (r: bool)
    ensures
        r == javascript_error_line(line@),
{
    let chars = chars_of(line);
    contains_str(&chars, "Uncaught") || contains_str(&chars, "ReferenceError:") || contains_str(
        &chars,
        "TypeError:",
    ) || (contains_str(&chars, "at ") && contains_str(&chars, ".js:"))
}

/// Whether a line belongs to a Go panic report.
pub fn is_go_panic(line: &str) -> (r: bool)
    ensures
        r == go_panic_line(line@),
{
    let chars = chars_of(line);
    contains_str(&chars, "panic:") || contains_str(&chars, "goroutine ") || contains_str(
        &chars,
        "runtime error:",
    )
}

/// Whether a line belongs to a Rust panic message.
pub fn is_rust_panic(line: &str) -> (r: bool)
    ensures
        r == rust_panic_line(line@),
{
    let chars = chars_of(line);
    contains_str(&chars, "panicked at") || (contains_str(&chars, "thread '") && contains_str(
        &chars,
        "' panicked",
    ))
}

/// Whether a line is junk: more than a quarter of its characters are
/// control characters other than the tab.
pub fn is_junk(line: &str) -> (r: bool)
    ensures
        r == junk_line(line@),
{
    let chars = chars_of(line);
    let mut count: usize = 0;
    let mut at: usize = 0;
    while at < chars.len()
        invariant
            at <= chars.len(),
            count <= at,
            count == noise_count(chars@.take(at as int)),
        decreases chars.len() - at,
    {
        let c = chars[at];
        proof {
            let next = chars@.take(at + 1);
            assert(next.drop_last() =~= chars@.take(at as int));
            assert(next.last() == c);
        }
        if is_control(c) && c != '\t' {
            count += 1;
        }
        at += 1;
    }
    assert(chars@.take(at as int) =~= chars@);
    count > chars.len() / 4
}

} // verus!
