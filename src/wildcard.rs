use vstd::prelude::*;
use regex::Regex;
use crate::text::{chars_of, string_from_chars};

verus! {

/// A character that the regular-expression engine reads as an operator
/// (or the escape character itself).
pub open spec fn is_regex_meta(c: char) -> bool {
    c == '.' || c == '+' || c == '*' || c == '?' || c == '(' || c == ')' || c == '['
        || c == ']' || c == '{' || c == '}' || c == '^' || c == '$' || c == '|' || c == '\\'
}

/// A query is a wildcard query when it holds `%` or `_` anywhere.
pub open spec fn is_wildcard_spec(q: Seq<char>) -> bool {
    exists|i: int| 0 <= i < q.len() && (q[i] == '%' || q[i] == '_')
}

/// The regular-expression text that stands for one query character.
pub open spec fn token(c: char) -> Seq<char> {
    if c == '%' {
        seq!['.', '*']
    } else if c == '_' {
        seq!['.']
    } else if is_regex_meta(c) {
        seq!['\\', c]
    } else {
        seq![c]
    }
}

/// The regular expression for a wildcard query: the tokens of its characters, in order.
pub open spec fn translate(q: Seq<char>) -> Seq<char>
    decreases q.len(),
{
    if q.len() == 0 {
        seq![]
    } else {
        translate(q.drop_last()) + token(q.last())
    }
}

/// Whether `query` holds a wildcard character (`%` or `_`).
pub fn is_wildcard(query: &str) -> (r: bool)
    ensures
        r == is_wildcard_spec(query@),
{
    let chars = chars_of(query);
    let mut i: usize = 0;
    while i < chars.len()
        invariant
            chars@ == query@,
            i <= chars@.len(),
            forall|k: int| 0 <= k < i ==> chars@[k] != '%' && chars@[k] != '_',
        decreases chars@.len() - i,
    {
        if chars[i] == '%' || chars[i] == '_' {
            return true;
        }
        i = i + 1;
    }
    false
}

/// Translates a wildcard query into a regular expression: `%` matches any run
/// of characters, `_` exactly one character, and every other character itself.
pub fn wildcard_to_regex(pattern: &str) -> (r: String)
    ensures
        r@ == translate(pattern@),
{
    let chars = chars_of(pattern);
    let mut out: Vec<char> = Vec::new();
    let mut i: usize = 0;
    while i < chars.len()
        invariant
            chars@ == pattern@,
            i <= chars@.len(),
            out@ == translate(chars@.take(i as int)),
        decreases chars@.len() - i,
    {
        let ch = chars[i];
        proof {
            assert(chars@.take(i + 1).drop_last() =~= chars@.take(i as int));
        }
        if ch == '%' {
            out.push('.');
            out.push('*');
        } else if ch == '_' {
            out.push('.');
        } else if ch == '.' || ch == '+' || ch == '*' || ch == '?' || ch == '(' || ch == ')'
            || ch == '[' || ch == ']' || ch == '{' || ch == '}' || ch == '^' || ch == '$'
            || ch == '|' || ch == '\\' {
            out.push('\\');
            out.push(ch);
        } else {
            out.push(ch);
        }
        assert(out@ =~= translate(chars@.take(i + 1)));
        i = i + 1;
    }
    assert(chars@.take(i as int) =~= chars@);
    string_from_chars(&out)
}

#[verifier::external_type_specification]
#[verifier::external_body]
pub struct ExRegex(regex::Regex);

#[verifier::external_type_specification]
#[verifier::external_body]
pub struct ExRegexError(regex::Error);

/// Whether the regex crate accepts the pattern `source` with the given case setting.
pub uninterp spec fn regex_accepts(source: Seq<char>, case_insensitive: bool) -> bool;

/// Whether the regex crate finds a match of `source` (with the given case
/// setting) anywhere in `text`.
pub uninterp spec fn regex_finds(source: Seq<char>, case_insensitive: bool, text: Seq<char>) -> bool;

/// Relies on `regex::RegexBuilder::new(..).case_insensitive(..).build()`: compiling
/// depends on the pattern and the case setting alone.
#[verifier::external_body]
fn build_regex(source: &str, case_insensitive: bool) -> (r: Result<Regex, regex::Error>)
    ensures
        r is Ok <==> regex_accepts(source@, case_insensitive),
{
    regex::RegexBuilder::new(source).case_insensitive(case_insensitive).build()
}

/// A compiled wildcard query. The regex it holds was built, by `compile_wildcard`
/// alone, from `source` with `case_insensitive`.
pub struct WildcardMatcher {
    regex: Regex,
    source: String,
    case_insensitive: bool,
}

/// Relies on `regex::Regex::is_match`: an unanchored search of the matcher's
/// regex in `text`, whose answer depends on the pattern, the case setting and
/// the text alone.
#[verifier::external_body]
fn regex_is_match(matcher: &WildcardMatcher, text: &str) -> (r: bool)
    ensures
        r == regex_finds(matcher.source@, matcher.case_insensitive, text@),
{
    matcher.regex.is_match(text)
}

impl WildcardMatcher {
    /// The regular expression this matcher runs.
    pub closed spec fn source_spec(&self) -> Seq<char> {
        self.source@
    }

    /// Whether this matcher ignores case.
    pub closed spec fn case_insensitive_spec(&self) -> bool {
        self.case_insensitive
    }

    /// What `is_match` answers on `text`.
    pub open spec fn matches_spec(&self, text: Seq<char>) -> bool {
        regex_finds(self.source_spec(), self.case_insensitive_spec(), text)
    }

    /// Whether the wildcard pattern occurs anywhere in `text`.
    pub fn is_match(&self, text: &str) -> (r: bool)
        ensures
            r == self.matches_spec(text@),
    {
        regex_is_match(self, text)
    }

    /// The regular expression this matcher runs.
    pub fn regex_source(&self) -> (r: &str)
        ensures
            r@ == self.source_spec(),
    {
        self.source.as_str()
    }

    /// Whether this matcher ignores case.
    pub fn is_case_insensitive(&self) -> (r: bool)
        ensures
            r == self.case_insensitive_spec(),
    {
        self.case_insensitive
    }
}

/// Translating a query with one more character in front puts that character's
/// token in front.
pub proof fn lemma_translate_prepend(c: char, s: Seq<char>)
    ensures
        translate(seq![c] + s) == token(c) + translate(s),
    decreases s.len(),
{
    if s.len() == 0 {
        assert(seq![c] + s =~= seq![c]);
        assert(seq![c].drop_last() =~= Seq::<char>::empty());
        assert(translate(Seq::<char>::empty()) =~= Seq::<char>::empty());
        assert(translate(seq![c]) =~= token(c));
        assert(token(c) + translate(s) =~= token(c));
    } else {
        assert((seq![c] + s).drop_last() =~= seq![c] + s.drop_last());
        assert((seq![c] + s).last() == s.last());
        lemma_translate_prepend(c, s.drop_last());
        assert(token(c) + translate(s) =~= token(c) + translate(s.drop_last()) + token(s.last()));
    }
}

/// A non-empty query translates to a non-empty pattern that begins with the
/// first token, which never begins with `*`.
proof fn lemma_translate_front(s: Seq<char>)
    requires
        s.len() > 0,
    ensures
        translate(s).len() >= token(s[0]).len(),
        translate(s).subrange(0, token(s[0]).len() as int) == token(s[0]),
        translate(s)[0] != '*',
{
    assert(s =~= seq![s[0]] + s.drop_first());
    lemma_translate_prepend(s[0], s.drop_first());
    assert(translate(s).subrange(0, token(s[0]).len() as int) =~= token(s[0]));
}

/// Wildcard translation loses nothing: distinct queries give distinct
/// regular expressions, so each token is read back as the character it came from.
pub proof fn law_translate_injective(a: Seq<char>, b: Seq<char>)
    requires
        translate(a) == translate(b),
    ensures
        a == b,
    decreases a.len(),
{
    if a.len() == 0 || b.len() == 0 {
        if a.len() > 0 {
            lemma_translate_front(a);
        }
        if b.len() > 0 {
            lemma_translate_front(b);
        }
        assert(a =~= b);
    } else {
        let t = translate(a);
        lemma_translate_front(a);
        lemma_translate_front(b);
        let (a0, b0) = (a[0], b[0]);
        assert(a =~= seq![a0] + a.drop_first());
        assert(b =~= seq![b0] + b.drop_first());
        lemma_translate_prepend(a0, a.drop_first());
        lemma_translate_prepend(b0, b.drop_first());
        assert(token(a0)[0] == t[0]);
        assert(token(b0)[0] == t[0]);
        if a0 != b0 {
            if a0 == '%' && b0 == '_' {
                if b.drop_first().len() > 0 {
                    lemma_translate_front(b.drop_first());
                    assert(t[1] == translate(b.drop_first())[0]);
                }
            } else if a0 == '_' && b0 == '%' {
                if a.drop_first().len() > 0 {
                    lemma_translate_front(a.drop_first());
                    assert(t[1] == translate(a.drop_first())[0]);
                }
            } else {
                assert(token(a0)[1] == t[1]);
                assert(token(b0)[1] == t[1]);
            }
        }
        assert(a0 == b0);
        assert(translate(a.drop_first()) =~= t.subrange(token(a0).len() as int, t.len() as int));
        assert(translate(b.drop_first()) =~= t.subrange(token(b0).len() as int, t.len() as int));
        law_translate_injective(a.drop_first(), b.drop_first());
    }
}

/// Compiling the same wildcard query twice with the same case setting gives
/// matchers that agree on every text.
pub proof fn law_compile_deterministic(
    pattern: Seq<char>,
    case_insensitive: bool,
    first: WildcardMatcher,
    second: WildcardMatcher,
    text: Seq<char>,
)
    requires
        first.source_spec() == translate(pattern),
        first.case_insensitive_spec() == case_insensitive,
        second.source_spec() == translate(pattern),
        second.case_insensitive_spec() == case_insensitive,
    ensures
        first.matches_spec(text) == second.matches_spec(text),
{
}

/// Compiles a wildcard query into a matcher, with the requested case sensitivity.
/// Fails, handing back the translated pattern, when the regex crate refuses it.
pub fn compile_wildcard(pattern: &str, case_insensitive: bool) -> (r: Result<WildcardMatcher, String>)
    ensures
        r is Ok <==> regex_accepts(translate(pattern@), case_insensitive),
        r matches Ok(m) ==> m.source_spec() == translate(pattern@)
            && m.case_insensitive_spec() == case_insensitive,
        r matches Err(s) ==> s@ == translate(pattern@),
{
    let source = wildcard_to_regex(pattern);
    match build_regex(source.as_str(), case_insensitive) {
        Ok(regex) => Ok(WildcardMatcher { regex, source, case_insensitive }),
        Err(_) => Err(source),
    }
}

} // verus!
