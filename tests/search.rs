use find_my_files::{
    contains_chars, resolve_text, search_files, text_matches, FileEntry, QueryMode, SearchError,
};

fn chars(s: &str) -> Vec<char> {
    s.chars().collect()
}

fn entry(path: &str, contents: Option<&[u8]>) -> FileEntry {
    FileEntry { path: path.to_string(), contents: contents.map(|b| b.to_vec()) }
}

#[test]
fn substring_containment() {
    assert!(contains_chars(&chars("hello world"), &chars("o w")));
    assert!(contains_chars(&chars("hello"), &chars("")));
    assert!(contains_chars(&chars(""), &chars("")));
    assert!(!contains_chars(&chars("hello"), &chars("hellos")));
    assert!(!contains_chars(&chars("hello"), &chars("oh")));
    assert!(contains_chars(&chars("hello"), &chars("hello")));
}

#[test]
fn classify_literal_and_wildcard() {
    match QueryMode::classify("Ab", false) {
        Ok(QueryMode::Exact(q)) => assert_eq!(q, "Ab"),
        _ => panic!("expected an exact literal query"),
    }
    match QueryMode::classify("ÄB", true) {
        Ok(QueryMode::Folded(q)) => assert_eq!(q, "äb"),
        _ => panic!("expected a lowercased literal query"),
    }
    match QueryMode::classify("a_b", true) {
        Ok(QueryMode::Wildcard(m)) => assert_eq!(m.regex_source(), "a.b"),
        _ => panic!("expected a wildcard query"),
    }
}

#[test]
fn literal_query_with_dot_matches_only_itself() {
    let mode = QueryMode::classify("a.b", false).ok().unwrap();
    assert!(text_matches("xxa.byy", &mode));
    assert!(!text_matches("xxaXbyy", &mode));
}

#[test]
fn literal_case_handling() {
    let kept = QueryMode::classify("Hello", false).ok().unwrap();
    assert!(text_matches("say Hello", &kept));
    assert!(!text_matches("say hello", &kept));
    let ignored = QueryMode::classify("Hello", true).ok().unwrap();
    assert!(text_matches("say hELLO", &ignored));
    assert!(!text_matches("say help", &ignored));
}

#[test]
fn empty_query_and_empty_text() {
    let empty = QueryMode::classify("", false).ok().unwrap();
    assert!(text_matches("", &empty));
    let any = QueryMode::classify("%", false).ok().unwrap();
    assert!(text_matches("", &any));
}

#[test]
fn decodes_utf8() {
    let d = resolve_text("naïve café".as_bytes());
    assert_eq!(d.text, "naïve café");
    assert!(!d.had_errors);
}

#[test]
fn decodes_ascii() {
    let d = resolve_text(b"plain text");
    assert_eq!(d.text, "plain text");
    assert!(!d.had_errors);
}

#[test]
fn decodes_utf16_with_bom() {
    let d = resolve_text(&[0xFF, 0xFE, b'h', 0, b'i', 0]);
    assert_eq!(d.text, "hi");
    assert!(!d.had_errors);
}

#[test]
fn decodes_latin1_text() {
    let d = resolve_text(b"Le caf\xe9 est tr\xe8s bon, le th\xe9 aussi. D\xe9j\xe0 vu.");
    assert_eq!(d.text, "Le café est très bon, le thé aussi. Déjà vu.");
    assert!(!d.had_errors);
}

#[test]
fn truncated_utf16_is_lossy() {
    let d = resolve_text(&[0xFF, 0xFE, b'h', 0, b'i']);
    assert_eq!(d.text, "h\u{FFFD}");
    assert!(d.had_errors);
}

#[test]
fn no_files_no_matches() {
    let files: Vec<FileEntry> = Vec::new();
    let report = search_files(&files, "anything", true).ok().unwrap();
    assert!(report.matches.is_empty());
    assert!(report.lossy.is_empty());
    let report = search_files(&files, "%x_", false).ok().unwrap();
    assert!(report.matches.is_empty());
}

#[test]
fn search_keeps_order_and_skips_unread() {
    let files = vec![
        entry("b.txt", Some(b"the needle is here")),
        entry("gone.txt", None),
        entry("c.txt", Some(b"nothing")),
        entry("a.txt", Some(b"NEEDLE")),
    ];
    let report = search_files(&files, "needle", true).ok().unwrap();
    assert_eq!(report.matches, vec!["b.txt".to_string(), "a.txt".to_string()]);
    let report = search_files(&files, "needle", false).ok().unwrap();
    assert_eq!(report.matches, vec!["b.txt".to_string()]);
    let report = search_files(&files, "n_e%e", false).ok().unwrap();
    assert_eq!(report.matches, vec!["b.txt".to_string()]);
}

#[test]
fn lossy_file_still_matches() {
    let files = vec![entry("broken.txt", Some(&[0xFF, 0xFE, b'h', 0, b'i']))];
    let report = search_files(&files, "h", false).ok().unwrap();
    assert_eq!(report.matches, vec!["broken.txt".to_string()]);
    assert_eq!(report.lossy, vec!["broken.txt".to_string()]);
}

#[test]
fn refused_pattern_fails_the_search() {
    let files = vec![entry("a.txt", Some(b"x"))];
    let query = "_".repeat(300_000);
    match search_files(&files, &query, false) {
        Err(SearchError::InvalidPattern(p)) => assert_eq!(p.len(), 300_000),
        _ => panic!("expected the pattern to be refused"),
    }
}
