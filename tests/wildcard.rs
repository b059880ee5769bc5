use find_my_files::{compile_wildcard, is_wildcard, wildcard_to_regex};

#[test]
fn literal_with_dot_is_not_wildcard() {
    assert!(!is_wildcard("a.b"));
    assert!(!is_wildcard(""));
    assert!(is_wildcard("a.b_"));
    assert!(is_wildcard("%strsql%"));
}

#[test]
fn translates_wildcards_and_escapes_metacharacters() {
    assert_eq!(wildcard_to_regex("a%b_c"), "a.*b.c");
    assert_eq!(wildcard_to_regex("a.b_"), "a\\.b.");
    assert_eq!(
        wildcard_to_regex(".+*?()[]{}^$|\\"),
        "\\.\\+\\*\\?\\(\\)\\[\\]\\{\\}\\^\\$\\|\\\\"
    );
    assert_eq!(wildcard_to_regex(""), "");
    assert_eq!(wildcard_to_regex("héllo"), "héllo");
}

#[test]
fn percent_and_underscore_slots() {
    let m = compile_wildcard("a%b_c", false).ok().unwrap();
    assert!(m.is_match("zzzza1234b9czzzz"));
    assert!(m.is_match("a123b9c"));
    assert!(!m.is_match("zzzzabczzzz"));
    assert_eq!(m.regex_source(), "a.*b.c");
    assert!(!m.is_case_insensitive());
}

#[test]
fn dot_stays_literal_in_wildcard_query() {
    let m = compile_wildcard("a.b_", false).ok().unwrap();
    assert!(m.is_match("xa.bQ"));
    assert!(!m.is_match("axbQ"));
    assert!(!m.is_match("a.b"));
}

#[test]
fn case_setting_is_applied() {
    let sensitive = compile_wildcard("%STRSQL%", false).ok().unwrap();
    let insensitive = compile_wildcard("%STRSQL%", true).ok().unwrap();
    assert!(!sensitive.is_match("call strsql now"));
    assert!(insensitive.is_match("call strsql now"));
    assert!(insensitive.is_case_insensitive());
}

#[test]
fn bare_percent_matches_empty_text() {
    let m = compile_wildcard("%", false).ok().unwrap();
    assert!(m.is_match(""));
}

#[test]
fn compiling_twice_agrees() {
    let subjects = ["", "abc", "a1b2c", "A1B2C", "zzzza1234b9czzzz", "a.b", "a\nb_c"];
    for ci in [false, true] {
        let first = compile_wildcard("a%b_c", ci).ok().unwrap();
        let second = compile_wildcard("a%b_c", ci).ok().unwrap();
        for s in subjects {
            assert_eq!(first.is_match(s), second.is_match(s));
        }
    }
}

#[test]
fn oversized_pattern_is_refused() {
    let query = "_".repeat(300_000);
    let r = compile_wildcard(&query, false);
    match r {
        Err(source) => assert_eq!(source, ".".repeat(300_000)),
        Ok(_) => panic!("a pattern this large should exceed the regex size limit"),
    }
}
