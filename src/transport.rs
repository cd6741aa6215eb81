use base64::Engine;
use vstd::prelude::*;

use crate::error::TextError;
use crate::format::Base64Format;

verus! {

/// The text that base64's URL-safe unpadded engine makes of some bytes.
pub uninterp spec fn url_safe_text(b: Seq<u8>) -> Seq<char>;

/// The bytes that base64's URL-safe unpadded engine reads from a text, if the
/// text is valid in that alphabet.
pub uninterp spec fn url_safe_bytes(s: Seq<char>) -> Option<Seq<u8>>;

/// The text that base64's standard padded engine makes of some bytes.
pub uninterp spec fn standard_text(b: Seq<u8>) -> Seq<char>;

/// The bytes that base64's standard padded engine reads from a text, if the
/// text is valid in that alphabet.
pub uninterp spec fn standard_bytes(s: Seq<char>) -> Option<Seq<u8>>;

/// What `str::trim` leaves of a text.
pub uninterp spec fn trimmed(s: Seq<char>) -> Seq<char>;

/// A character of the URL-safe base64 alphabet.
pub open spec fn is_url_safe_char(c: char) -> bool {
    ('A' <= c <= 'Z') || ('a' <= c <= 'z') || ('0' <= c <= '9') || c == '-' || c == '_'
}

/// A text made of URL-safe base64 characters only.
pub open spec fn is_url_safe_text(s: Seq<char>) -> bool {
    forall|i: int| 0 <= i < s.len() ==> is_url_safe_char(#[trigger] s[i])
}

/// The largest input the encoders take: beyond it the length of the encoded
/// text would not fit in `usize`.
pub open spec fn encodable(b: Seq<u8>) -> bool {
    b.len() <= usize::MAX / 2
}

/// base64's decoding error, carried opaquely and mapped to `TextError::Encoding`.
#[verifier::external_type_specification]
#[verifier::external_body]
pub struct ExDecodeError(base64::DecodeError);

/// Relies on `Engine::encode` of base64's `URL_SAFE_NO_PAD`: the text holds
/// only characters of the URL-safe alphabet, without padding, and the
/// engine's decoder reads it back into the same bytes.
#[verifier::external_body]
fn url_safe_encode(b: &[u8]) -> (r: String)
    requires
        encodable(b@),
    ensures
        r@ == url_safe_text(b@),
        is_url_safe_text(r@),
        url_safe_bytes(r@) == Some(b@),
{
    base64::engine::general_purpose::URL_SAFE_NO_PAD.encode(b)
}

/// Relies on `Engine::decode` of base64's `URL_SAFE_NO_PAD`.
#[verifier::external_body]
fn url_safe_decode(s: &str) -> (r: Result<Vec<u8>, base64::DecodeError>)
    ensures
        match r {
            Ok(v) => url_safe_bytes(s@) == Some(v@),
            Err(_) => url_safe_bytes(s@) is None,
        },
{
    base64::engine::general_purpose::URL_SAFE_NO_PAD.decode(s)
}

/// Relies on `Engine::encode` of base64's `STANDARD`, whose decoder reads the
/// text back into the same bytes.
#[verifier::external_body]
fn standard_encode(b: &[u8]) -> (r: String)
    requires
        encodable(b@),
    ensures
        r@ == standard_text(b@),
        standard_bytes(r@) == Some(b@),
{
    base64::engine::general_purpose::STANDARD.encode(b)
}

/// Relies on `Engine::decode` of base64's `STANDARD`.
#[verifier::external_body]
fn standard_decode(s: &str) -> (r: Result<Vec<u8>, base64::DecodeError>)
    ensures
        match r {
            Ok(v) => standard_bytes(s@) == Some(v@),
            Err(_) => standard_bytes(s@) is None,
        },
{
    base64::engine::general_purpose::STANDARD.decode(s)
}

/// Relies on `str::trim`: the text without its leading and trailing white
/// space; letters, digits, `-` and `_` are not white space.
#[verifier::external_body]
pub(crate) fn trim_text(s: &str) -> (r: String)
    ensures
        r@ == trimmed(s@),
        is_url_safe_text(s@) ==> r@ == s@,
{
    s.trim().to_string()
}

/// A text without its surrounding white space; a text of URL-safe base64
/// characters has none.
pub open spec fn stripped(s: Seq<char>) -> Seq<char> {
    if is_url_safe_text(s) {
        s
    } else {
        trimmed(s)
    }
}

/// What reading a transport text gives: its bytes, or `Encoding` where the
/// text is not URL-safe unpadded base64.
pub open spec fn transport_decoded(s: Seq<char>) -> Result<Seq<u8>, TextError> {
    match url_safe_bytes(s) {
        Some(b) => Ok(b),
        None => Err(TextError::Encoding),
    }
}

/// Whether a library result holds the given bytes or the given error.
pub open spec fn bytes_result_is(r: Result<Vec<u8>, TextError>, s: Result<Seq<u8>, TextError>) -> bool {
    match (r, s) {
        (Ok(v), Ok(b)) => v@ == b,
        (Err(e), Err(f)) => e == f,
        _ => false,
    }
}

/// The bytes that `decode` of the given alphabet reads from a text.
pub open spec fn base64_bytes(s: Seq<char>, format: Base64Format) -> Option<Seq<u8>> {
    match format {
        Base64Format::Standard => standard_bytes(s),
        Base64Format::UrlSafe => url_safe_bytes(s),
    }
}

/// The text that `encode` of the given alphabet makes of some bytes.
pub open spec fn base64_text(b: Seq<u8>, format: Base64Format) -> Seq<char> {
    match format {
        Base64Format::Standard => standard_text(b),
        Base64Format::UrlSafe => url_safe_text(b),
    }
}

/// Encodes a binary value as transport text; reading the text back gives the
/// same value, for every value, the empty one included.
pub fn encode_transport(v: &[u8]) -> (r: String)
    requires
        encodable(v@),
    ensures
        r@ == url_safe_text(v@),
        is_url_safe_text(r@),
        transport_decoded(r@) == Ok::<Seq<u8>, TextError>(v@),
{
    url_safe_encode(v)
}

/// Reads a transport text back into bytes.
pub fn decode_transport(s: &str) -> (r: Result<Vec<u8>, TextError>)
    ensures
        bytes_result_is(r, transport_decoded(s@)),
{
    match url_safe_decode(s) {
        Ok(v) => Ok(v),
        Err(_) => Err(TextError::Encoding),
    }
}

/// Encodes a whole input in the given base64 alphabet.
pub fn process_encode(data: &[u8], format: Base64Format) -> (r: String)
    requires
        encodable(data@),
    ensures
        r@ == base64_text(data@, format),
        base64_bytes(r@, format) == Some(data@),
{
    match format {
        Base64Format::Standard => standard_encode(data),
        Base64Format::UrlSafe => url_safe_encode(data),
    }
}

/// Decodes an already trimmed text in the given base64 alphabet.
pub fn decode_base64(text: &str, format: Base64Format) -> (r: Result<Vec<u8>, TextError>)
    ensures
        match r {
            Ok(v) => base64_bytes(text@, format) == Some(v@),
            Err(e) => e == TextError::Encoding && base64_bytes(text@, format) is None,
        },
{
    let decoded = match format {
        Base64Format::Standard => standard_decode(text),
        Base64Format::UrlSafe => url_safe_decode(text),
    };
    match decoded {
        Ok(v) => Ok(v),
        Err(_) => Err(TextError::Encoding),
    }
}

/// Decodes a whole input in the given base64 alphabet, ignoring the white
/// space around it.
pub fn process_decode(text: &str, format: Base64Format) -> (r: Result<Vec<u8>, TextError>)
    ensures
        match r {
            Ok(v) => base64_bytes(trimmed(text@), format) == Some(v@),
            Err(e) => e == TextError::Encoding && base64_bytes(trimmed(text@), format) is None,
        },
{
    let t = trim_text(text);
    decode_base64(t.as_str(), format)
}

} // verus!
