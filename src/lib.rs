//! Searching a set of text files for a literal or SQL-style wildcard query,
//! after decoding each file's bytes with a best-guess character encoding.

pub mod encoding;
pub mod search;
pub mod text;
pub mod wildcard;

pub use encoding::{resolve_text, DecodedText};
pub use search::{text_matches, search_files, FileEntry, QueryMode, SearchError, SearchReport};
pub use text::contains_chars;
pub use wildcard::{compile_wildcard, is_wildcard, wildcard_to_regex, WildcardMatcher};
