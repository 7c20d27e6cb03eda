//! Message content: base64 of UTF-8 text, sometimes wrapped in an XML envelope.

use base64::Engine;
use vstd::prelude::*;
use vstd::utf8::{decode_utf8, encode_utf8, valid_utf8};

use crate::error::ApiError;
use crate::text::holds_at;

verus! {

/// The text that opens the XML envelope some message bodies arrive in.
pub const ENVELOPE_PREFIX: &'static str = "<Message><Content><![CDATA[";

/// The text that closes the XML envelope some message bodies arrive in.
pub const ENVELOPE_SUFFIX: &'static str = "]]></Content><Actions><Actions/></Actions></Message>";

/// `s` without the envelope, when it starts with the prefix and ends with the suffix
/// (the two not overlapping); otherwise `s` itself.
pub open spec fn without_envelope(s: Seq<char>) -> Seq<char> {
    let p = ENVELOPE_PREFIX@;
    let q = ENVELOPE_SUFFIX@;
    if s.len() >= p.len() + q.len() && s.subrange(0, p.len() as int) == p && s.subrange(
        s.len() - q.len(),
        s.len() as int,
    ) == q {
        s.subrange(p.len() as int, s.len() - q.len())
    } else {
        s
    }
}

/// What the standard base64 alphabet, with padding, decodes `text` to; `None` when
/// `text` is not such base64.
pub uninterp spec fn base64_decoded(text: Seq<char>) -> Option<Seq<u8>>;

/// The text that encoded message content stands for: base64 of UTF-8 bytes.
pub open spec fn decoded_text(encoded: Seq<char>) -> Option<Seq<char>> {
    match base64_decoded(encoded) {
        Some(bytes) => if valid_utf8(bytes) {
            Some(decode_utf8(bytes))
        } else {
            None
        },
        None => None,
    }
}

#[verifier::external_type_specification]
#[verifier::external_body]
pub struct ExDecodeError(base64::DecodeError);

#[verifier::external_type_specification]
#[verifier::external_body]
pub struct ExFromUtf8Error(std::string::FromUtf8Error);

/// Relies on base64's `Engine::decode` with the `STANDARD` engine: the bytes that
/// `text` encodes, or an error when it is not valid padded base64.
#[verifier::external_body]
fn base64_decode(text: &str) -> (r: Result<Vec<u8>, base64::DecodeError>)
    ensures
        match r {
            Ok(bytes) => base64_decoded(text@) == Some(bytes@),
            Err(_) => base64_decoded(text@) is None,
        },
{
    base64::engine::general_purpose::STANDARD.decode(text)
}

/// Relies on `String::from_utf8`: the text that `bytes` encode when they are valid
/// UTF-8, an error otherwise.
#[verifier::external_body]
fn utf8_text(bytes: Vec<u8>) -> (r: Result<String, std::string::FromUtf8Error>)
    ensures
        match r {
            Ok(s) => valid_utf8(bytes@) && s@ == decode_utf8(bytes@),
            Err(_) => !valid_utf8(bytes@),
        },
{
    String::from_utf8(bytes)
}

/// Decodes message content: base64, then UTF-8.
pub fn decode_content(encoded: &str) -> (r: Result<String, ApiError>)
    ensures
        match r {
            Ok(text) => decoded_text(encoded@) == Some(text@),
            Err(e) => decoded_text(encoded@) is None && e is Decoding,
        },
{
    match base64_decode(encoded) {
        Ok(bytes) => match utf8_text(bytes) {
            Ok(text) => Ok(text),
            Err(_) => Err(ApiError::Decoding),
        },
        Err(_) => Err(ApiError::Decoding),
    }
}

/// Removes the XML envelope around message content; content without both halves
/// of the envelope comes back unchanged.
pub fn remove_content_prefix_and_suffix(content: String) -> (r: String)
    ensures
        r@ == without_envelope(content@),
{
    let n = content.as_str().unicode_len();
    let p = ENVELOPE_PREFIX.unicode_len();
    let q = ENVELOPE_SUFFIX.unicode_len();
    if n < q || n - q < p {
        return content;
    }
    if !holds_at(content.as_str(), 0, ENVELOPE_PREFIX) {
        return content;
    }
    if !holds_at(content.as_str(), n - q, ENVELOPE_SUFFIX) {
        return content;
    }
    let inner = content.as_str().substring_char(p, n - q);
    inner.to_string()
}

/// Stripping the envelope from `prefix + x + suffix` gives `x`, and any text that
/// does not start with the prefix, or does not end with the suffix, is left as it is.
pub proof fn lemma_envelope_stripping(x: Seq<char>, s: Seq<char>)
    ensures
        without_envelope(ENVELOPE_PREFIX@ + x + ENVELOPE_SUFFIX@) == x,
        !(s.len() >= ENVELOPE_PREFIX@.len() && s.subrange(0, ENVELOPE_PREFIX@.len() as int)
            == ENVELOPE_PREFIX@) ==> without_envelope(s) == s,
        !(s.len() >= ENVELOPE_SUFFIX@.len() && s.subrange(
            s.len() - ENVELOPE_SUFFIX@.len(),
            s.len() as int,
        ) == ENVELOPE_SUFFIX@) ==> without_envelope(s) == s,
{
    let p = ENVELOPE_PREFIX@;
    let q = ENVELOPE_SUFFIX@;
    let w = p + x + q;
    assert(w.subrange(0, p.len() as int) =~= p);
    assert(w.subrange(w.len() - q.len(), w.len() as int) =~= q);
    assert(w.subrange(p.len() as int, w.len() - q.len()) =~= x);
}

/// Content whose base64 payload is the UTF-8 encoding of some text decodes to
/// exactly that text; content that is not base64, or whose bytes are not UTF-8,
/// decodes to nothing.
pub proof fn lemma_content_round_trip(encoded: Seq<char>, text: Seq<char>)
    ensures
        base64_decoded(encoded) == Some(encode_utf8(text)) ==> decoded_text(encoded) == Some(
            text,
        ),
        base64_decoded(encoded) is None ==> decoded_text(encoded) is None,
        (base64_decoded(encoded) matches Some(b) && !valid_utf8(b)) ==> decoded_text(encoded) is None,
{
    if base64_decoded(encoded) == Some(encode_utf8(text)) {
        vstd::utf8::encode_utf8_valid_utf8(text);
        vstd::utf8::encode_utf8_decode_utf8(text);
    }
}

} // verus!
