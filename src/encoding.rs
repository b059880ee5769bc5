use vstd::prelude::*;

verus! {

/// The name of the encoding that chardetng guesses for a complete byte buffer
/// (no top-level domain hint, UTF-8 allowed).
pub uninterp spec fn detected_label(bytes: Seq<u8>) -> Seq<char>;

/// What encoding_rs gives for `bytes` decoded with the encoding that `label`
/// names: `None` when the label names no encoding, else the text (invalid
/// sequences replaced) and whether any replacement happened.
pub uninterp spec fn decode_by_label(label: Seq<char>, bytes: Seq<u8>) -> Option<(Seq<char>, bool)>;

/// Relies on chardetng's `EncodingDetector` (`new`, `feed` with the whole buffer
/// as the last chunk, `guess(None, true)`) and encoding_rs's `Encoding::name`:
/// the guess depends on the bytes alone.
#[verifier::external_body]
fn detect_label(bytes: &[u8]) -> (r: String)
    ensures
        r@ == detected_label(bytes@),
{
    let mut detector = chardetng::EncodingDetector::new();
    detector.feed(bytes, true);
    detector.guess(None, true).name().to_string()
}

/// Relies on encoding_rs's `Encoding::for_label` to resolve `label` and
/// `Encoding::decode`, which replaces malformed sequences and reports whether it
/// did. `"utf-8"` is a label of UTF-8.
#[verifier::external_body]
fn decode_with_label(label: &str, bytes: &[u8]) -> (r: Option<(String, bool)>)
    ensures
        match r {
            Some(d) => decode_by_label(label@, bytes@) == Some((d.0@, d.1)),
            None => decode_by_label(label@, bytes@) is None,
        },
        label@ == seq!['u', 't', 'f', '-', '8'] ==> r is Some,
{
    match encoding_rs::Encoding::for_label(label.as_bytes()) {
        Some(encoding) => {
            let (text, _, had_errors) = encoding.decode(bytes);
            Some((text.into_owned(), had_errors))
        },
        None => None,
    }
}

/// The label used when the guessed encoding is not recognised.
pub open spec fn fallback_label() -> Seq<char> {
    seq!['u', 't', 'f', '-', '8']
}

/// The text and loss flag that `resolve_text` gives for `bytes`: decoded with the
/// guessed encoding, or with UTF-8 when the guess names no known encoding.
pub open spec fn resolved(bytes: Seq<u8>) -> (Seq<char>, bool) {
    match decode_by_label(detected_label(bytes), bytes) {
        Some(d) => d,
        None => decode_by_label(fallback_label(), bytes).unwrap(),
    }
}

/// Decoded file content.
pub struct DecodedText {
    /// The text, with invalid sequences replaced.
    pub text: String,
    /// Whether any invalid sequence was replaced.
    pub had_errors: bool,
}

/// Decodes raw bytes to text with a best-guess encoding, falling back to UTF-8
/// when the guessed label is not recognised. Never fails.
pub fn resolve_text(bytes: &[u8]) -> (r: DecodedText)
    ensures
        (r.text@, r.had_errors) == resolved(bytes@),
{
    let label = detect_label(bytes);
    match decode_with_label(label.as_str(), bytes) {
        Some(d) => DecodedText { text: d.0, had_errors: d.1 },
        None => {
            let utf8 = "utf-8";
            proof {
                reveal_strlit("utf-8");
                assert(utf8@ =~= fallback_label());
            }
            match decode_with_label(utf8, bytes) {
                Some(d) => DecodedText { text: d.0, had_errors: d.1 },
                None => {
                    proof {
                        assert(false);
                    }
                    DecodedText { text: String::new(), had_errors: true }
                },
            }
        },
    }
}

} // verus!
