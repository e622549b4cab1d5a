use strbin::heuristics::{
    is_cpp_exception, is_go_panic, is_java_stacktrace, is_javascript_error, is_json, is_junk,
    is_python_traceback, is_rust_panic, is_xml,
};
use strbin::text::{chars_of, contains, contains_str, is_control, matches_at};

#[test]
fn chars_of_gives_the_characters() {
    assert_eq!(chars_of(""), Vec::<char>::new());
    assert_eq!(chars_of("abc"), vec!['a', 'b', 'c']);
    assert_eq!(chars_of("h\u{e9}llo"), vec!['h', '\u{e9}', 'l', 'l', 'o']);
}

#[test]
fn search_finds_a_text_anywhere() {
    let hay = chars_of("the quick brown fox");
    assert!(contains_str(&hay, "the"));
    assert!(contains_str(&hay, "quick"));
    assert!(contains_str(&hay, "fox"));
    assert!(contains_str(&hay, ""));
    assert!(contains_str(&hay, "the quick brown fox"));
    assert!(!contains_str(&hay, "the quick brown fox "));
    assert!(!contains_str(&hay, "quack"));
    assert!(!contains_str(&hay, "Fox"));
    assert!(contains(&hay, &vec!['o', 'w', 'n']));
    assert!(!contains(&hay, &vec!['o', 'w', 'l']));
    assert!(contains(&Vec::new(), &Vec::new()));
    assert!(!contains(&Vec::new(), &vec!['a']));
}

#[test]
fn match_at_a_position() {
    let hay = chars_of("abcabc");
    let needle = chars_of("bc");
    assert!(!matches_at(&hay, &needle, 0));
    assert!(matches_at(&hay, &needle, 1));
    assert!(matches_at(&hay, &needle, 4));
    assert!(!matches_at(&hay, &needle, 5));
    assert!(!matches_at(&hay, &needle, 6));
    assert!(!matches_at(&hay, &needle, 100));
    assert!(matches_at(&hay, &Vec::new(), 6));
    assert!(!matches_at(&hay, &Vec::new(), 7));
}

#[test]
fn json_lines_start_with_a_brace_or_bracket() {
    assert!(is_json("{\"status\":\"ok\"}"));
    assert!(is_json("[1, 2, 3]"));
    assert!(is_json("   {"));
    assert!(is_json("\t\n ["));
    assert!(is_json("\u{a0}\u{2003}{"));
    assert!(!is_json(""));
    assert!(!is_json("   "));
    assert!(!is_json("a{"));
    assert!(!is_json("<a>"));
    assert!(!is_json("} {"));
}

#[test]
fn xml_lines_start_with_an_angle_bracket() {
    assert!(is_xml("<note>"));
    assert!(is_xml("  <?xml version=\"1.0\"?>"));
    assert!(!is_xml("note>"));
    assert!(!is_xml("a <b>"));
    assert!(!is_xml(""));
    assert!(!is_xml("{"));
}

#[test]
fn cpp_exception_lines() {
    assert!(is_cpp_exception("terminate called after throwing an instance of 'X'"));
    assert!(is_cpp_exception("  what():  bad"));
    assert!(is_cpp_exception("caught std::exception here"));
    assert!(!is_cpp_exception("what() is this"));
    assert!(!is_cpp_exception("std::vector"));
    assert!(!is_cpp_exception(""));
}

#[test]
fn python_traceback_lines() {
    assert!(is_python_traceback("Traceback (most recent call last):"));
    assert!(is_python_traceback("  File \"x.py\", line 3, in f"));
    assert!(is_python_traceback("ValueError: bad"));
    assert!(is_python_traceback("\u{c9}tat Error: x"));
    assert!(!is_python_traceback("valueError: bad"));
    assert!(!is_python_traceback(" ValueError: bad"));
    assert!(!is_python_traceback("  File \"x.py\""));
    assert!(!is_python_traceback("see, line 3"));
    assert!(!is_python_traceback("Error"));
    assert!(!is_python_traceback(""));
}

#[test]
fn java_stacktrace_lines() {
    assert!(is_java_stacktrace("\tat com.x.Main.run(Main.java:10)"));
    assert!(is_java_stacktrace("Exception in thread \"main\" java.lang.Error"));
    assert!(is_java_stacktrace("Caused by: java.io.IOException"));
    assert!(!is_java_stacktrace("at home"));
    assert!(!is_java_stacktrace("Main.java:10"));
    assert!(!is_java_stacktrace(""));
}

#[test]
fn javascript_error_lines() {
    assert!(is_javascript_error("Uncaught exception"));
    assert!(is_javascript_error("ReferenceError: x is not defined"));
    assert!(is_javascript_error("TypeError: y is not a function"));
    assert!(is_javascript_error("    at f (app.js:3:1)"));
    assert!(!is_javascript_error("app.js:3"));
    assert!(!is_javascript_error("at the end"));
    assert!(!is_javascript_error("TypeError"));
}

#[test]
fn go_panic_lines() {
    assert!(is_go_panic("panic: oops"));
    assert!(is_go_panic("goroutine 1 [running]:"));
    assert!(is_go_panic("x: runtime error: index out of range"));
    assert!(!is_go_panic("goroutine"));
    assert!(!is_go_panic("panic"));
}

#[test]
fn rust_panic_lines() {
    assert!(is_rust_panic("thread 'main' panicked at src/main.rs:1:1"));
    assert!(is_rust_panic("it panicked at noon"));
    assert!(is_rust_panic("thread 'x' panicked"));
    assert!(!is_rust_panic("thread 'main' is fine"));
    assert!(!is_rust_panic("' panicked"));
    assert!(!is_rust_panic("panicked"));
}

#[test]
fn junk_is_more_than_a_quarter_control_characters() {
    assert!(!is_junk(""));
    assert!(!is_junk("hello"));
    assert!(is_junk("\u{1}"));
    assert!(is_junk("\u{1}ab"));
    assert!(!is_junk("\u{1}abc"));
    assert!(is_junk("\u{1}\u{2}abc"));
    assert!(is_junk("\u{1}\u{2}abcdef"[..7].to_string().as_str()));
    assert!(!is_junk("\u{1}\u{2}abcdef"));
    assert!(is_junk("\u{1}\u{2}\u{3}abcdef"));
}

#[test]
fn junk_does_not_count_tabs() {
    assert!(!is_junk("\t"));
    assert!(!is_junk("\t\t\t\t"));
    assert!(!is_junk("\ta\tb"));
    assert!(is_junk("\t\u{7f}"));
}

#[test]
fn junk_counts_every_control_code() {
    assert!(is_junk("\u{0}"));
    assert!(is_junk("\u{1f}"));
    assert!(is_junk("\u{7f}"));
    assert!(is_junk("\u{80}"));
    assert!(is_junk("\u{9f}"));
    assert!(is_junk("\n"));
    assert!(is_junk("\r"));
    assert!(!is_junk(" "));
    assert!(!is_junk("\u{a0}"));
    assert!(!is_junk("~"));
}

#[test]
fn junk_goes_by_characters() {
    assert!(is_junk("\u{1}\u{e9}\u{e9}"));
    assert!(!is_junk("\u{1}\u{e9}\u{e9}\u{e9}"));
}

#[test]
fn control_codes_are_those_of_the_standard_library() {
    let mut seen = 0;
    for n in 0..=0x10FFFF_u32 {
        if let Some(c) = char::from_u32(n) {
            assert_eq!(is_control(c), c.is_control());
            if is_control(c) {
                seen += 1;
            }
        }
    }
    assert_eq!(seen, 65);
    assert!(is_control('\u{0}'));
    assert!(is_control('\u{1f}'));
    assert!(!is_control(' '));
    assert!(!is_control('\u{7e}'));
    assert!(is_control('\u{7f}'));
    assert!(is_control('\u{9f}'));
    assert!(!is_control('\u{a0}'));
}

#[test]
fn single_character_is_junk_exactly_if_it_is_a_control_code_but_no_tab() {
    for n in 0..=0x2FF_u32 {
        if let Some(c) = char::from_u32(n) {
            assert_eq!(is_junk(&c.to_string()), c.is_control() && c != '\t');
        }
    }
}
