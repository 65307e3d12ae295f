use backend_supervisor::classify::{classify, classify_upper, Severity};
use backend_supervisor::text::{contains, decimal, find_solid_span, trim};

#[test]
fn error_word_gives_error() {
    assert_eq!(classify("Something ERROR happened"), Severity::Error);
}

#[test]
fn warning_word_gives_warning() {
    assert_eq!(classify("low WARNING disk"), Severity::Warning);
}

#[test]
fn plain_line_gives_info() {
    assert_eq!(classify("normal message"), Severity::Info);
}

#[test]
fn lower_case_error_gives_error() {
    assert_eq!(classify("error"), Severity::Error);
}

#[test]
fn mixed_case_words_are_found() {
    assert_eq!(classify("a Critical thing"), Severity::Error);
    assert_eq!(classify("unhandled exception in worker"), Severity::Error);
    assert_eq!(classify("Warn: slow"), Severity::Warning);
    assert_eq!(classify("DeprecationWarning: old call"), Severity::Warning);
}

#[test]
fn error_rule_is_tried_before_warning_rule() {
    assert_eq!(classify("WARNING: previous ERROR ignored"), Severity::Error);
    assert_eq!(classify("warning then critical"), Severity::Error);
}

#[test]
fn word_inside_another_word_still_counts() {
    assert_eq!(classify("stderror"), Severity::Error);
    assert_eq!(classify("forewarned"), Severity::Warning);
}

#[test]
fn empty_line_classifies_as_info() {
    assert_eq!(classify(""), Severity::Info);
}

#[test]
fn classify_upper_reads_the_text_as_it_is() {
    assert_eq!(classify_upper("AN ERROR"), Severity::Error);
    assert_eq!(classify_upper("an error"), Severity::Info);
    assert_eq!(classify_upper("WARN"), Severity::Warning);
    assert_eq!(classify_upper("WAR NING"), Severity::Info);
    assert_eq!(classify_upper(""), Severity::Info);
}

#[test]
fn classify_agrees_on_lines_that_differ_in_case() {
    let lines = ["Error: x", "ERROR: X", "error: x", "eRrOr: X"];
    for line in lines {
        assert_eq!(classify(line), Severity::Error);
    }
    assert_eq!(classify("Info: x"), classify("INFO: X"));
}

#[test]
fn contains_finds_a_run_of_characters() {
    assert!(contains("hello world", "lo w"));
    assert!(contains("hello", "hello"));
    assert!(contains("hello", "o"));
    assert!(contains("hello", "h"));
    assert!(!contains("hello", "hellos"));
    assert!(!contains("hello", "ol"));
    assert!(!contains("", "a"));
}

#[test]
fn contains_finds_the_empty_needle_everywhere() {
    assert!(contains("abc", ""));
    assert!(contains("", ""));
}

#[test]
fn contains_works_on_characters_not_bytes() {
    assert!(contains("naïve café", "é"));
    assert!(contains("日本語のテキスト", "語の"));
    assert!(!contains("日本語", "本日"));
}

#[test]
fn trim_removes_whitespace_at_both_ends() {
    assert_eq!(trim("  hello world \t\r\n"), "hello world");
    assert_eq!(trim("x"), "x");
    assert_eq!(trim(" x"), "x");
    assert_eq!(trim("x "), "x");
    assert_eq!(trim("a  b"), "a  b");
}

#[test]
fn trim_leaves_nothing_of_a_blank_text() {
    assert_eq!(trim(""), "");
    assert_eq!(trim("   "), "");
    assert_eq!(trim("\t\n"), "");
}

#[test]
fn trim_knows_whitespace_beyond_ascii() {
    assert_eq!(trim("\u{00a0}\u{3000}é \u{2003}"), "é");
    assert_eq!(trim("\u{2028}"), "");
}

#[test]
fn trim_agrees_with_the_standard_library() {
    let samples = ["", " ", "a", " a ", "\t a b \n", "\u{a0}x\u{a0}", "  日本  ", "\u{feff}x "];
    for sample in samples {
        assert_eq!(trim(sample), sample.trim());
    }
}

#[test]
fn solid_span_of_given_marks() {
    assert_eq!(find_solid_span(&vec![]), (0, 0));
    assert_eq!(find_solid_span(&vec![true, true, true]), (3, 3));
    assert_eq!(find_solid_span(&vec![false]), (0, 1));
    assert_eq!(find_solid_span(&vec![true, true, false, true]), (2, 3));
    assert_eq!(find_solid_span(&vec![true, false, true, false, true, true]), (1, 4));
    assert_eq!(find_solid_span(&vec![false, true, true]), (0, 1));
}

#[test]
fn decimal_writes_numbers_without_leading_zeros() {
    assert_eq!(decimal(0), "0");
    assert_eq!(decimal(7), "7");
    assert_eq!(decimal(10), "10");
    assert_eq!(decimal(8000), "8000");
    assert_eq!(decimal(65535), "65535");
    assert_eq!(decimal(1234), "1234");
    assert_eq!(decimal(905), "905");
}
