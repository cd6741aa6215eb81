use chacha20poly1305::aead::{Aead, AeadCore, KeyInit, OsRng};
use chacha20poly1305::{ChaCha20Poly1305, Key, Nonce};
use vstd::prelude::*;

use crate::engine::{byte_array, KeyGenerator, KeyLoader};
use crate::error::TextError;

verus! {

/// The ChaCha20-Poly1305 ciphertext and tag of a plaintext under a key and a
/// 12-byte nonce, with no associated data.
pub uninterp spec fn chacha_sealed(key: Seq<u8>, nonce: Seq<u8>, plaintext: Seq<u8>) -> Seq<u8>;

/// The plaintext that ChaCha20-Poly1305 recovers from a ciphertext and tag,
/// if the tag verifies.
pub uninterp spec fn chacha_opened(key: Seq<u8>, nonce: Seq<u8>, sealed: Seq<u8>) -> Option<Seq<u8>>;

/// The length of the nonce at the front of an envelope.
pub const NONCE_LEN: usize = 12;

/// Whether a plaintext is short enough for the cipher: its block counter must
/// not run out.
pub open spec fn sealable(plaintext: Seq<u8>) -> bool {
    plaintext.len() / 64 < 0xffff_ffff
}

/// The AEAD error of chacha20poly1305, carried opaquely and mapped to the
/// library's own errors.
#[verifier::external_type_specification]
#[verifier::external_body]
pub struct ExAeadError(chacha20poly1305::Error);

/// Relies on `Aead::encrypt` of `ChaCha20Poly1305`: it fails only where the
/// block counter would run out, and otherwise appends a 16-byte tag that
/// `Aead::decrypt` checks before giving the plaintext back.
#[verifier::external_body]
fn seal(key: &[u8; 32], nonce: &[u8; 12], plaintext: &[u8]) -> (r: Result<Vec<u8>, chacha20poly1305::Error>)
    ensures
        r is Ok <==> sealable(plaintext@),
        r matches Ok(c) ==> c@ == chacha_sealed(key@, nonce@, plaintext@),
        r matches Ok(c) ==> c@.len() == plaintext@.len() + 16,
        r matches Ok(c) ==> chacha_opened(key@, nonce@, c@) == Some(plaintext@),
{
    ChaCha20Poly1305::new(Key::from_slice(key)).encrypt(Nonce::from_slice(nonce), plaintext)
}

/// Relies on `Aead::decrypt` of `ChaCha20Poly1305`, which gives no plaintext
/// unless the tag verifies.
#[verifier::external_body]
fn open(key: &[u8; 32], nonce: &[u8; 12], sealed: &[u8]) -> (r: Result<Vec<u8>, chacha20poly1305::Error>)
    ensures
        match r {
            Ok(p) => chacha_opened(key@, nonce@, sealed@) == Some(p@),
            Err(_) => chacha_opened(key@, nonce@, sealed@) is None,
        },
{
    ChaCha20Poly1305::new(Key::from_slice(key)).decrypt(Nonce::from_slice(nonce), sealed)
}

/// Relies on `AeadCore::generate_nonce` over the operating system's random
/// source: 12 fresh bytes.
#[verifier::external_body]
fn fresh_nonce() -> (r: [u8; 12]) {
    ChaCha20Poly1305::generate_nonce(&mut OsRng).into()
}

/// Relies on `KeyInit::generate_key` over the operating system's random
/// source: 32 fresh bytes.
#[verifier::external_body]
fn random_cipher_key() -> (r: [u8; 32]) {
    ChaCha20Poly1305::generate_key(&mut OsRng).into()
}

/// The authenticated cipher engine: it holds one 32-byte symmetric key.
pub struct ChaCha20Poly1305Cipher {
    key: [u8; 32],
}

impl View for ChaCha20Poly1305Cipher {
    type V = Seq<u8>;

    closed spec fn view(&self) -> Seq<u8> {
        self.key@
    }
}

/// The envelope of a plaintext sealed under a key and a nonce: the nonce,
/// then the ciphertext and tag.
pub open spec fn envelope(key: Seq<u8>, nonce: Seq<u8>, plaintext: Seq<u8>) -> Seq<u8> {
    nonce + chacha_sealed(key, nonce, plaintext)
}

/// What opening an envelope gives: one shorter than the nonce is malformed;
/// otherwise the plaintext if the tag verifies, and an authentication failure
/// if it does not.
pub open spec fn envelope_opened(key: Seq<u8>, env: Seq<u8>) -> Result<Seq<u8>, TextError> {
    if env.len() < NONCE_LEN {
        Err(TextError::MalformedInput)
    } else {
        match chacha_opened(key, env.subrange(0, NONCE_LEN as int), env.subrange(NONCE_LEN as int, env.len() as int)) {
            Some(p) => Ok(p),
            None => Err(TextError::AuthenticationFailure),
        }
    }
}

/// Whether blobs are a single 32-byte key.
pub open spec fn is_single_key(keys: Seq<Seq<u8>>) -> bool {
    keys.len() == 1 && keys[0].len() == 32
}

impl ChaCha20Poly1305Cipher {
    /// A cipher over the given key.
    pub fn new(key: [u8; 32]) -> (r: Self)
        ensures
            r@ == key@,
    {
        ChaCha20Poly1305Cipher { key }
    }

    /// A cipher over the given key bytes, which must be exactly 32.
    pub fn try_new(key: &[u8]) -> (r: Result<Self, TextError>)
        ensures
            match r {
                Ok(c) => key@.len() == 32 && c@ == key@,
                Err(e) => e == TextError::KeyFormat && key@.len() != 32,
            },
    {
        if key.len() != 32 {
            return Err(TextError::KeyFormat);
        }
        let k: [u8; 32] = byte_array(key);
        Ok(ChaCha20Poly1305Cipher::new(k))
    }

    /// Seals a plaintext under the given nonce and returns the envelope; a
    /// plaintext too long for the cipher is malformed.
    pub fn encrypt_with_nonce(&self, nonce: [u8; 12], plaintext: &[u8]) -> (r: Result<Vec<u8>, TextError>)
        ensures
            match r {
                Ok(env) => sealable(plaintext@) && env@ == envelope(self@, nonce@, plaintext@)
                    && env@.len() == NONCE_LEN + plaintext@.len() + 16,
                Err(e) => e == TextError::MalformedInput && !sealable(plaintext@),
            },
            r matches Ok(env) ==> envelope_opened(self@, env@) == Ok::<Seq<u8>, TextError>(plaintext@),
    {
        match seal(&self.key, &nonce, plaintext) {
            Ok(mut sealed) => {
                let mut env = vstd::slice::slice_to_vec(&nonce);
                env.append(&mut sealed);
                proof {
                    let ghost e = env@;
                    assert(e.subrange(0, NONCE_LEN as int) =~= nonce@);
                    assert(e.subrange(NONCE_LEN as int, e.len() as int) =~= chacha_sealed(self@, nonce@, plaintext@));
                }
                Ok(env)
            },
            Err(_) => Err(TextError::MalformedInput),
        }
    }

    /// Seals a plaintext under a fresh random nonce. Opening the envelope with
    /// the same key gives the plaintext back.
    pub fn encrypt(&self, plaintext: &[u8]) -> (r: Result<Vec<u8>, TextError>)
        ensures
            match r {
                Ok(env) => sealable(plaintext@) && env@.len() == NONCE_LEN + plaintext@.len() + 16
                    && env@ == envelope(self@, env@.subrange(0, NONCE_LEN as int), plaintext@),
                Err(e) => e == TextError::MalformedInput && !sealable(plaintext@),
            },
            r matches Ok(env) ==> envelope_opened(self@, env@) == Ok::<Seq<u8>, TextError>(plaintext@),
    {
        let nonce = fresh_nonce();
        let r = self.encrypt_with_nonce(nonce, plaintext);
        proof {
            if r is Ok {
                assert(r->Ok_0@.subrange(0, NONCE_LEN as int) =~= nonce@);
            }
        }
        r
    }

    /// Opens an envelope: it must hold at least the nonce, and its tag must
    /// verify, or no plaintext is given.
    pub fn decrypt(&self, env: &[u8]) -> (r: Result<Vec<u8>, TextError>)
        ensures
            match (r, envelope_opened(self@, env@)) {
                (Ok(p), Ok(q)) => p@ == q,
                (Err(e), Err(f)) => e == f,
                _ => false,
            },
    {
        if env.len() < NONCE_LEN {
            return Err(TextError::MalformedInput);
        }
        let nonce: [u8; 12] = byte_array(vstd::slice::slice_subrange(env, 0, NONCE_LEN));
        let sealed = vstd::slice::slice_subrange(env, NONCE_LEN, env.len());
        match open(&self.key, &nonce, sealed) {
            Ok(p) => Ok(p),
            Err(_) => Err(TextError::AuthenticationFailure),
        }
    }
}

impl KeyLoader for ChaCha20Poly1305Cipher {
    open spec fn accepts(key: Seq<u8>) -> bool {
        key.len() == 32
    }

    open spec fn key_bytes(&self) -> Seq<u8> {
        self@
    }

    fn load(key: &[u8]) -> (r: Result<Self, TextError>) {
        ChaCha20Poly1305Cipher::try_new(key)
    }
}

impl KeyGenerator for ChaCha20Poly1305Cipher {
    open spec fn generated(keys: Seq<Seq<u8>>) -> bool {
        is_single_key(keys)
    }

    fn generate() -> (r: Vec<Vec<u8>>) {
        let key = random_cipher_key();
        let r = vec![vstd::slice::slice_to_vec(&key)];
        assert(r.deep_view()[0] == key@);
        r
    }
}

} // verus!
