use speak::text::{
    decimal_string, join_strings, matches_stop_phrase, normalize_text, strip_stop_phrase,
    trim_spaces, two_digit_string,
};

#[test]
fn normalization_lowercases_and_drops_punctuation() {
    let n: String = normalize_text("That's All.").into_iter().collect();
    assert_eq!(n, "thats all");
    let n2: String = normalize_text("no change here").into_iter().collect();
    assert_eq!(n2, "no change here");
}

#[test]
fn stop_phrase_matches_the_documented_forms() {
    let pattern = "that's all";
    assert!(matches_stop_phrase("That's all.", pattern));
    assert!(matches_stop_phrase("thats all", pattern));
    assert!(matches_stop_phrase("THAT'S ALL", pattern));
    assert!(!matches_stop_phrase("that's all good", pattern));
}

#[test]
fn stop_phrase_is_anchored_to_the_end() {
    let pattern = "that's all";
    assert!(matches_stop_phrase("well then, That's All.", pattern));
    assert!(!matches_stop_phrase("that's all, except this", pattern));
    assert!(!matches_stop_phrase("", pattern));
}

#[test]
fn strip_removes_trailing_stop_phrase_and_spaces() {
    let r = strip_stop_phrase("hello world that's all.", "that's all");
    assert_eq!(r.as_deref(), Some("hello world"));
    let r2 = strip_stop_phrase("hello world", "that's all");
    assert!(r2.is_none());
}

#[test]
fn strip_removes_only_the_last_occurrence() {
    let r = strip_stop_phrase("that's all that's all", "that's all");
    assert_eq!(r.as_deref(), Some("that's all"));
}

#[test]
fn strip_of_bare_stop_phrase_leaves_empty_text() {
    let r = strip_stop_phrase("THATS ALL.", "that's all");
    assert_eq!(r.as_deref(), Some(""));
}

#[test]
fn trim_spaces_trims_both_ends_only() {
    assert_eq!(trim_spaces("  hello world \n"), "hello world");
    assert_eq!(trim_spaces("untouched"), "untouched");
    assert_eq!(trim_spaces(" \t "), "");
}

#[test]
fn join_skips_empty_entries() {
    let parts = vec![
        String::from("hello"),
        String::new(),
        String::from("world"),
    ];
    assert_eq!(join_strings(&parts), "hello world");
    let empty: Vec<String> = Vec::new();
    assert_eq!(join_strings(&empty), "");
}

#[test]
fn match_and_strip_agree() {
    let cases = [
        ("hello world that's all.", "that's all"),
        ("hello world", "that's all"),
        ("THATS ALL", "that's all"),
        ("that's almost all", "that's all"),
        ("", "that's all"),
        ("a.l.l. t.h.a.t", "all that"),
    ];
    for (t, p) in cases {
        assert_eq!(matches_stop_phrase(t, p), strip_stop_phrase(t, p).is_some());
    }
}

#[test]
fn clock_digits_render_padded() {
    assert_eq!(two_digit_string(0), "00");
    assert_eq!(two_digit_string(7), "07");
    assert_eq!(two_digit_string(59), "59");
    assert_eq!(two_digit_string(125), "125");
    assert_eq!(decimal_string(0), "0");
    assert_eq!(decimal_string(10), "10");
    assert_eq!(decimal_string(43070), "43070");
}
