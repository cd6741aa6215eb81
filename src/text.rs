use vstd::prelude::*;
use vstd::utf8::*;

use crate::cipher::{envelope, envelope_opened, sealable, ChaCha20Poly1305Cipher, NONCE_LEN};
use crate::engine::{KeyGenerator, TextSign, TextVerify};
use crate::error::TextError;
use crate::format::TextSignFormat;
use crate::genpass::utf8_string;
use crate::keyed_hash::{blake3_keyed, keyed_hash_verified, Blake3};
use crate::signature::{ed25519_point, ed25519_signature, ed25519_verified, is_ed25519_pair, Ed25519Signer, Ed25519Verifier};
use crate::transport::{decode_transport, encode_transport, transport_decoded, stripped, trim_text, url_safe_bytes, is_url_safe_text, url_safe_text};

verus! {

/// The binary signature that an algorithm makes of an input under a key of
/// the right length, if the algorithm signs.
pub open spec fn signature_of(input: Seq<u8>, key: Seq<u8>, format: TextSignFormat) -> Option<Seq<u8>> {
    match format {
        TextSignFormat::Blake3 => Some(blake3_keyed(key, input)@),
        TextSignFormat::Ed25519 => Some(ed25519_signature(key, input)@),
        TextSignFormat::ChaCha20Poly1305 => None,
    }
}

/// What signing gives: the transport text of the signature, a key of the wrong
/// length, or an algorithm that does not sign.
pub open spec fn sign_outcome(input: Seq<u8>, key: Seq<u8>, format: TextSignFormat) -> Result<Seq<char>, TextError> {
    match signature_of(input, key, format) {
        None => Err(TextError::UnsupportedOperation),
        Some(sig) => if key.len() != 32 {
            Err(TextError::KeyFormat)
        } else {
            Ok(url_safe_text(sig))
        },
    }
}

/// What verifying gives: the signature text is read first, then the key, then
/// the signature is checked by the algorithm's engine.
pub open spec fn verify_outcome(input: Seq<u8>, key: Seq<u8>, format: TextSignFormat, sig: Seq<char>) -> Result<bool, TextError> {
    match url_safe_bytes(sig) {
        None => Err(TextError::Encoding),
        Some(s) => match format {
            TextSignFormat::Blake3 => if key.len() != 32 {
                Err(TextError::KeyFormat)
            } else {
                keyed_hash_verified(key, input, s)
            },
            TextSignFormat::Ed25519 => if key.len() != 32 || !ed25519_point(key) {
                Err(TextError::KeyFormat)
            } else {
                ed25519_verified(key, input, s)
            },
            TextSignFormat::ChaCha20Poly1305 => Err(TextError::UnsupportedOperation),
        },
    }
}

/// What decrypting gives: the key is read first, then the transport text
/// without its surrounding white space, then the envelope is opened, and the
/// plaintext must be UTF-8 text.
pub open spec fn decrypt_outcome(input: Seq<char>, key: Seq<u8>) -> Result<Seq<char>, TextError> {
    if key.len() != 32 {
        Err(TextError::KeyFormat)
    } else {
        match url_safe_bytes(stripped(input)) {
            None => Err(TextError::Encoding),
            Some(env) => match envelope_opened(key, env) {
                Err(e) => Err(e),
                Ok(p) => if valid_utf8(p) {
                    Ok(decode_utf8(p))
                } else {
                    Err(TextError::InvalidText)
                },
            },
        }
    }
}

/// Whether a text is what signing an input gives: the transport text of the
/// signature, which reads back into the signature.
pub open spec fn is_signature_text(input: Seq<u8>, key: Seq<u8>, format: TextSignFormat, t: Seq<char>) -> bool {
    &&& sign_outcome(input, key, format) == Ok::<Seq<char>, TextError>(t)
    &&& transport_decoded(t) == Ok::<Seq<u8>, TextError>(signature_of(input, key, format)->Some_0)
}

/// Whether a text is what encrypting an input gives: the transport text of an
/// envelope of the input under the key and some nonce.
pub open spec fn is_envelope_text(input: Seq<u8>, key: Seq<u8>, t: Seq<char>) -> bool {
    &&& key.len() == 32
    &&& is_url_safe_text(t)
    &&& transport_decoded(t) matches Ok(env)
    &&& env == envelope(key, env.subrange(0, NONCE_LEN as int), input)
    &&& envelope_opened(key, env) == Ok::<Seq<u8>, TextError>(input)
}

/// The key that checks what a key of the blobs signs: the key itself for the
/// keyed hash, the public key of a pair for signatures.
pub open spec fn checking_key(keys: Seq<Seq<u8>>) -> Seq<u8> {
    keys.last()
}

/// Whether blobs are key material that an algorithm may have generated.
pub open spec fn generated_keys(format: TextSignFormat, keys: Seq<Seq<u8>>) -> bool {
    match format {
        TextSignFormat::Blake3 => Blake3::generated(keys),
        TextSignFormat::Ed25519 => Ed25519Signer::generated(keys),
        TextSignFormat::ChaCha20Poly1305 => ChaCha20Poly1305Cipher::generated(keys),
    }
}

/// Whether a library result holds the given text or the given error.
pub open spec fn text_result_is(r: Result<String, TextError>, s: Result<Seq<char>, TextError>) -> bool {
    match (r, s) {
        (Ok(t), Ok(u)) => t@ == u,
        (Err(e), Err(f)) => e == f,
        _ => false,
    }
}

/// Signs a whole input with a keyed hash or a signature key, and returns the
/// signature as transport text.
pub fn process_text_sign(input: &[u8], key: &[u8], format: TextSignFormat) -> (r: Result<String, TextError>)
    ensures
        text_result_is(r, sign_outcome(input@, key@, format)),
        r matches Ok(t) ==> is_signature_text(input@, key@, format, t@),
{
    let signed = match format {
        TextSignFormat::Blake3 => {
            let signer = Blake3::try_new(key)?;
            signer.sign(input)
        },
        TextSignFormat::Ed25519 => {
            let signer = Ed25519Signer::try_new(key)?;
            signer.sign(input)
        },
        TextSignFormat::ChaCha20Poly1305 => {
            return Err(TextError::UnsupportedOperation);
        },
    };
    Ok(encode_transport(signed.as_slice()))
}

/// Checks a transport-text signature of a whole input. A signature that does
/// not match is `Ok(false)`, not an error.
pub fn process_text_verify(input: &[u8], key: &[u8], format: TextSignFormat, sig: &str) -> (r: Result<bool, TextError>)
    ensures
        r == verify_outcome(input@, key@, format, sig@),
{
    let sig = decode_transport(sig)?;
    match format {
        TextSignFormat::Blake3 => {
            let verifier = Blake3::try_new(key)?;
            verifier.verify(input, sig.as_slice())
        },
        TextSignFormat::Ed25519 => {
            let verifier = Ed25519Verifier::try_new(key)?;
            verifier.verify(input, sig.as_slice())
        },
        TextSignFormat::ChaCha20Poly1305 => Err(TextError::UnsupportedOperation),
    }
}

/// Generates new key material for an algorithm: one 32-byte key for the keyed
/// hash and the cipher, a secret key and its public key for signatures.
pub fn process_text_generate(format: TextSignFormat) -> (r: Vec<Vec<u8>>)
    ensures
        generated_keys(format, r.deep_view()),
{
    match format {
        TextSignFormat::Blake3 => Blake3::generate(),
        TextSignFormat::Ed25519 => Ed25519Signer::generate(),
        TextSignFormat::ChaCha20Poly1305 => ChaCha20Poly1305Cipher::generate(),
    }
}

/// Encrypts a whole input under a fresh nonce and returns the envelope as
/// transport text. Decrypting that text with the same key gives the input
/// back.
pub fn process_text_encrypt(input: &[u8], key: &[u8]) -> (r: Result<String, TextError>)
    requires
        input@.len() <= usize::MAX / 4,
    ensures
        match r {
            Ok(t) => sealable(input@) && is_envelope_text(input@, key@, t@),
            Err(e) => (e == TextError::KeyFormat && key@.len() != 32) || (e == TextError::MalformedInput
                && key@.len() == 32 && !sealable(input@)),
        },
{
    let cipher = ChaCha20Poly1305Cipher::try_new(key)?;
    let env = cipher.encrypt(input)?;
    Ok(encode_transport(env.as_slice()))
}

/// Decrypts an envelope given as transport text and returns the plaintext as
/// text. A tampered envelope gives `AuthenticationFailure` and no plaintext.
pub fn process_text_decrypt(input: &str, key: &[u8]) -> (r: Result<String, TextError>)
    ensures
        text_result_is(r, decrypt_outcome(input@, key@)),
{
    let cipher = ChaCha20Poly1305Cipher::try_new(key)?;
    let text = trim_text(input);
    let env = decode_transport(text.as_str())?;
    let plain = cipher.decrypt(env.as_slice())?;
    match utf8_string(plain) {
        Ok(s) => Ok(s),
        Err(_) => Err(TextError::InvalidText),
    }
}

/// Signing any input with a key of the right shape and checking the
/// signature text with the matching key gives `true`: the key itself for the
/// keyed hash, the public half of a generated pair for signatures.
pub proof fn lemma_sign_then_verify(input: Seq<u8>, keys: Seq<Seq<u8>>, format: TextSignFormat, t: Seq<char>)
    requires
        format == TextSignFormat::Blake3 ==> keys.len() == 1 && keys[0].len() == 32,
        format == TextSignFormat::Ed25519 ==> is_ed25519_pair(keys),
        format != TextSignFormat::ChaCha20Poly1305,
        is_signature_text(input, keys[0], format, t),
    ensures
        verify_outcome(input, checking_key(keys), format, t) == Ok::<bool, TextError>(true),
{
}

/// Decrypting the text that encrypting an input gives, with the same key,
/// gives the input back as text, or `InvalidText` where it is not UTF-8.
pub proof fn lemma_encrypt_then_decrypt(input: Seq<u8>, key: Seq<u8>, t: Seq<char>)
    requires
        is_envelope_text(input, key, t),
    ensures
        decrypt_outcome(t, key) == (if valid_utf8(input) {
            Ok::<Seq<char>, TextError>(decode_utf8(input))
        } else {
            Err(TextError::InvalidText)
        }),
{
}

} // verus!
