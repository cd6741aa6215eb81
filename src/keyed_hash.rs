use vstd::prelude::*;

use crate::engine::{byte_array, KeyGenerator, KeyLoader, TextSign, TextVerify};
use crate::error::TextError;
use crate::genpass::{is_password, password_bytes};

verus! {

/// The keyed BLAKE3 hash of some data under a 32-byte key.
pub uninterp spec fn blake3_keyed(key: Seq<u8>, data: Seq<u8>) -> [u8; 32];

/// Relies on `blake3::keyed_hash`: the 32-byte keyed hash of the whole input.
#[verifier::external_body]
fn keyed_hash(key: &[u8; 32], data: &[u8]) -> (r: [u8; 32])
    ensures
        r == blake3_keyed(key@, data@),
{
    *blake3::keyed_hash(key, data).as_bytes()
}

/// Relies on `PartialEq<[u8; 32]>` of `blake3::Hash`: a comparison of all
/// bytes whose time does not depend on where they first differ.
#[verifier::external_body]
fn digests_equal(expected: &[u8; 32], given: &[u8; 32]) -> (r: bool)
    ensures
        r == (expected@ == given@),
{
    blake3::Hash::from_bytes(*expected) == *given
}

/// The keyed-hash engine: it holds one 32-byte symmetric key.
pub struct Blake3 {
    key: [u8; 32],
}

impl View for Blake3 {
    type V = Seq<u8>;

    closed spec fn view(&self) -> Seq<u8> {
        self.key@
    }
}

/// What checking a digest gives: a digest that is not 32 bytes long is refused
/// before any comparison; otherwise whether it equals the keyed hash.
pub open spec fn keyed_hash_verified(key: Seq<u8>, data: Seq<u8>, sig: Seq<u8>) -> Result<bool, TextError> {
    if sig.len() != 32 {
        Err(TextError::MalformedInput)
    } else {
        Ok(sig == blake3_keyed(key, data)@)
    }
}

/// The digest that signing makes is accepted by verifying with the same key,
/// for every key and every input.
pub proof fn lemma_keyed_hash_sign_then_verify(key: Seq<u8>, data: Seq<u8>)
    requires
        key.len() == 32,
    ensures
        keyed_hash_verified(key, data, blake3_keyed(key, data)@) == Ok::<bool, TextError>(true),
{
}

impl Blake3 {
    /// An engine over the given key.
    pub fn new(key: [u8; 32]) -> (r: Self)
        ensures
            r@ == key@,
    {
        Blake3 { key }
    }

    /// An engine over the given key bytes, which must be exactly 32.
    pub fn try_new(key: &[u8]) -> (r: Result<Self, TextError>)
        ensures
            match r {
                Ok(b) => key@.len() == 32 && b@ == key@,
                Err(e) => e == TextError::KeyFormat && key@.len() != 32,
            },
    {
        if key.len() != 32 {
            return Err(TextError::KeyFormat);
        }
        let k: [u8; 32] = byte_array(key);
        Ok(Blake3::new(k))
    }
}

impl TextSign for Blake3 {
    open spec fn signed(&self, data: Seq<u8>) -> Seq<u8> {
        blake3_keyed(self@, data)@
    }

    fn sign(&self, data: &[u8]) -> (r: Vec<u8>) {
        let digest = keyed_hash(&self.key, data);
        vstd::slice::slice_to_vec(&digest)
    }
}

impl TextVerify for Blake3 {
    open spec fn verified(&self, data: Seq<u8>, sig: Seq<u8>) -> Result<bool, TextError> {
        keyed_hash_verified(self@, data, sig)
    }

    fn verify(&self, data: &[u8], sig: &[u8]) -> (r: Result<bool, TextError>) {
        if sig.len() != 32 {
            return Err(TextError::MalformedInput);
        }
        let given: [u8; 32] = byte_array(sig);
        let digest = keyed_hash(&self.key, data);
        Ok(digests_equal(&digest, &given))
    }
}

impl KeyLoader for Blake3 {
    open spec fn accepts(key: Seq<u8>) -> bool {
        key.len() == 32
    }

    open spec fn key_bytes(&self) -> Seq<u8> {
        self@
    }

    fn load(key: &[u8]) -> (r: Result<Self, TextError>) {
        Blake3::try_new(key)
    }
}

impl KeyGenerator for Blake3 {
    /// A key of 32 printable ASCII characters with at least one upper-case
    /// letter, one lower-case letter, one digit and one symbol.
    open spec fn generated(keys: Seq<Seq<u8>>) -> bool {
        keys.len() == 1 && keys[0].len() == 32 && is_password(keys[0], 32, true, true, true, true)
    }

    fn generate() -> (r: Vec<Vec<u8>>) {
        let key = password_bytes(32, true, true, true, true);
        let r = vec![key];
        assert(r.deep_view()[0] == r[0]@);
        r
    }
}

} // verus!
