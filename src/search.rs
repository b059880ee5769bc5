use vstd::prelude::*;
use crate::encoding::{resolve_text, resolved};
use crate::text::{chars_of, contains_chars, lower_of, lowercase, seq_contains};
use crate::wildcard::{compile_wildcard, is_wildcard, is_wildcard_spec, translate, WildcardMatcher};

verus! {

/// Whether decoded `text` matches `query`: through the translated regular
/// expression for a wildcard query, else by substring containment, on
/// lowercased text and query when case is ignored.
pub open spec fn query_matches(query: Seq<char>, case_insensitive: bool, text: Seq<char>) -> bool {
    if is_wildcard_spec(query) {
        crate::wildcard::regex_finds(translate(query), case_insensitive, text)
    } else if case_insensitive {
        seq_contains(lower_of(text), lower_of(query))
    } else {
        seq_contains(text, query)
    }
}

/// A fatal failure of a whole search.
pub enum SearchError {
    /// The folder could not be listed; the message says why.
    Enumeration(String),
    /// The regex crate refused the translated wildcard pattern, held here.
    InvalidPattern(String),
}

/// A query, classified once and prepared for matching many files.
pub enum QueryMode {
    /// A literal query, matched with its original casing.
    Exact(String),
    /// A literal query, already lowercased, matched against lowercased text.
    Folded(String),
    /// A compiled wildcard query.
    Wildcard(WildcardMatcher),
}

impl QueryMode {
    /// Whether this mode accepts decoded `text`.
    pub open spec fn matches_spec(&self, text: Seq<char>) -> bool {
        match self {
            QueryMode::Exact(q) => seq_contains(text, q@),
            QueryMode::Folded(q) => seq_contains(lower_of(text), q@),
            QueryMode::Wildcard(m) => m.matches_spec(text),
        }
    }

    /// Classifies `query` as literal or wildcard, and prepares it: a wildcard
    /// query is compiled, a case-insensitive literal query lowercased.
    pub fn classify(query: &str, case_insensitive: bool) -> (r: Result<QueryMode, SearchError>)
        ensures
            r is Ok <==> (!is_wildcard_spec(query@) || crate::wildcard::regex_accepts(
                translate(query@),
                case_insensitive,
            )),
            r matches Ok(mode) ==> (mode is Wildcard <==> is_wildcard_spec(query@)),
            r matches Ok(mode) ==> forall|text: Seq<char>|
                #[trigger] mode.matches_spec(text) == query_matches(query@, case_insensitive, text),
            r matches Err(e) ==> e matches SearchError::InvalidPattern(p) && p@ == translate(
                query@,
            ),
    {
        if is_wildcard(query) {
            match compile_wildcard(query, case_insensitive) {
                Ok(m) => Ok(QueryMode::Wildcard(m)),
                Err(p) => Err(SearchError::InvalidPattern(p)),
            }
        } else if case_insensitive {
            Ok(QueryMode::Folded(lowercase(query)))
        } else {
            Ok(QueryMode::Exact(query.to_string()))
        }
    }
}

/// Whether decoded `text` matches the prepared query.
pub fn text_matches(text: &str, mode: &QueryMode) -> (r: bool)
    ensures
        r == mode.matches_spec(text@),
{
    match mode {
        QueryMode::Exact(q) => contains_chars(&chars_of(text), &chars_of(q.as_str())),
        QueryMode::Folded(q) => {
            let lowered = lowercase(text);
            contains_chars(&chars_of(lowered.as_str()), &chars_of(q.as_str()))
        },
        QueryMode::Wildcard(m) => m.is_match(text),
    }
}

/// One enumerated file: its path, and its bytes, or `None` when reading failed.
pub struct FileEntry {
    pub path: String,
    pub contents: Option<Vec<u8>>,
}

/// The outcome of a search.
pub struct SearchReport {
    /// Paths of the matching files, in enumeration order.
    pub matches: Vec<String>,
    /// Paths of the read files whose decoding replaced invalid sequences, in
    /// enumeration order.
    pub lossy: Vec<String>,
}

/// Whether the file was read and its decoded text matches.
pub open spec fn entry_matches(entry: FileEntry, query: Seq<char>, case_insensitive: bool) -> bool {
    match entry.contents {
        Some(bytes) => query_matches(query, case_insensitive, resolved(bytes@).0),
        None => false,
    }
}

/// Whether the file was read and decoding it replaced invalid sequences.
pub open spec fn entry_lossy(entry: FileEntry) -> bool {
    match entry.contents {
        Some(bytes) => resolved(bytes@).1,
        None => false,
    }
}

/// The paths of the matching files, in order.
pub open spec fn matching_paths(files: Seq<FileEntry>, query: Seq<char>, case_insensitive: bool) -> Seq<Seq<char>>
    decreases files.len(),
{
    if files.len() == 0 {
        seq![]
    } else {
        let earlier = matching_paths(files.drop_last(), query, case_insensitive);
        if entry_matches(files.last(), query, case_insensitive) {
            earlier.push(files.last().path@)
        } else {
            earlier
        }
    }
}

/// The paths of the read files whose decoding was lossy, in order.
pub open spec fn lossy_paths(files: Seq<FileEntry>) -> Seq<Seq<char>>
    decreases files.len(),
{
    if files.len() == 0 {
        seq![]
    } else {
        let earlier = lossy_paths(files.drop_last());
        if entry_lossy(files.last()) {
            earlier.push(files.last().path@)
        } else {
            earlier
        }
    }
}

/// The views of a sequence of strings.
pub open spec fn views(v: Seq<String>) -> Seq<Seq<char>> {
    v.map_values(|s: String| s@)
}

/// Searches the enumerated files for `query`. The query is classified (and a
/// wildcard query compiled) once; each read file is decoded and tested; files
/// that could not be read are skipped. Fails only when the wildcard pattern is
/// refused.
pub fn search_files(files: &Vec<FileEntry>, query: &str, case_insensitive: bool) -> (r: Result<SearchReport, SearchError>)
    ensures
        r is Ok <==> (!is_wildcard_spec(query@) || crate::wildcard::regex_accepts(
            translate(query@),
            case_insensitive,
        )),
        r matches Ok(report) ==> views(report.matches@) == matching_paths(files@, query@, case_insensitive)
            && views(report.lossy@) == lossy_paths(files@),
        r matches Err(e) ==> e matches SearchError::InvalidPattern(p) && p@ == translate(query@),
{
    let mode = match QueryMode::classify(query, case_insensitive) {
        Ok(mode) => mode,
        Err(e) => return Err(e),
    };
    let mut found: Vec<String> = Vec::new();
    let mut lossy: Vec<String> = Vec::new();
    let mut i: usize = 0;
    while i < files.len()
        invariant
            i <= files@.len(),
            forall|text: Seq<char>| #[trigger] mode.matches_spec(text) == query_matches(query@, case_insensitive, text),
            views(found@) == matching_paths(files@.take(i as int), query@, case_insensitive),
            views(lossy@) == lossy_paths(files@.take(i as int)),
        decreases files@.len() - i,
    {
        let entry = &files[i];
        proof {
            assert(files@.take(i + 1).drop_last() =~= files@.take(i as int));
            assert(files@.take(i + 1).last() == files@[i as int]);
        }
        match &entry.contents {
            Some(bytes) => {
                let decoded = resolve_text(bytes.as_slice());
                if decoded.had_errors {
                    lossy.push(entry.path.clone());
                }
                if text_matches(decoded.text.as_str(), &mode) {
                    found.push(entry.path.clone());
                }
            },
            None => {},
        }
        assert(views(found@) =~= matching_paths(files@.take(i + 1), query@, case_insensitive));
        assert(views(lossy@) =~= lossy_paths(files@.take(i + 1)));
        i = i + 1;
    }
    assert(files@.take(i as int) =~= files@);
    Ok(SearchReport { matches: found, lossy })
}

/// With a literal query and case kept, a read file matches exactly when its
/// decoded text holds the query as a substring.
pub proof fn law_literal_match_keeps_case(query: Seq<char>, entry: FileEntry)
    requires
        !is_wildcard_spec(query),
        entry.contents is Some,
    ensures
        entry_matches(entry, query, false) == seq_contains(
            resolved(entry.contents->Some_0@).0,
            query,
        ),
{
}

/// With a literal query and case ignored, a read file matches exactly when its
/// lowercased decoded text holds the lowercased query.
pub proof fn law_literal_match_ignores_case(query: Seq<char>, entry: FileEntry)
    requires
        !is_wildcard_spec(query),
        entry.contents is Some,
    ensures
        entry_matches(entry, query, true) == seq_contains(
            lower_of(resolved(entry.contents->Some_0@).0),
            lower_of(query),
        ),
{
}

/// A file that could not be read never matches.
pub proof fn law_unread_file_skipped(entry: FileEntry, query: Seq<char>, case_insensitive: bool)
    requires
        entry.contents is None,
    ensures
        !entry_matches(entry, query, case_insensitive),
        !entry_lossy(entry),
{
}

/// A search over no files finds nothing and reports no lossy decoding.
pub proof fn law_no_files_no_matches(query: Seq<char>, case_insensitive: bool)
    ensures
        matching_paths(Seq::empty(), query, case_insensitive).len() == 0,
        lossy_paths(Seq::empty()).len() == 0,
{
}

/// A file whose decoding replaced invalid sequences is still reported when its
/// decoded text matches.
pub proof fn law_lossy_match_reported(
    files: Seq<FileEntry>,
    query: Seq<char>,
    case_insensitive: bool,
    i: int,
)
    requires
        0 <= i < files.len(),
        entry_lossy(files[i]),
        entry_matches(files[i], query, case_insensitive),
    ensures
        matching_paths(files, query, case_insensitive).contains(files[i].path@),
        lossy_paths(files).contains(files[i].path@),
    decreases files.len(),
{
    let earlier = files.drop_last();
    if i == files.len() - 1 {
        assert(matching_paths(files, query, case_insensitive).last() == files[i].path@);
        assert(lossy_paths(files).last() == files[i].path@);
    } else {
        law_lossy_match_reported(earlier, query, case_insensitive, i);
        let m = matching_paths(earlier, query, case_insensitive);
        let k = choose|k: int| 0 <= k < m.len() && m[k] == files[i].path@;
        assert(matching_paths(files, query, case_insensitive)[k] == files[i].path@);
        let l = lossy_paths(earlier);
        let j = choose|j: int| 0 <= j < l.len() && l[j] == files[i].path@;
        assert(lossy_paths(files)[j] == files[i].path@);
    }
}

} // verus!
