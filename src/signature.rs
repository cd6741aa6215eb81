use chacha20poly1305::aead::OsRng;
use ed25519_dalek::{Signer, Verifier};
use vstd::prelude::*;

use crate::engine::{byte_array, KeyGenerator, KeyLoader, TextSign, TextVerify};
use crate::error::TextError;

verus! {

/// The public key that Ed25519 derives from a 32-byte secret key.
pub uninterp spec fn ed25519_public(sk: Seq<u8>) -> [u8; 32];

/// The Ed25519 signature of a message under a 32-byte secret key.
pub uninterp spec fn ed25519_signature(sk: Seq<u8>, msg: Seq<u8>) -> [u8; 64];

/// Whether 32 bytes are the compressed form of a point of the curve.
pub uninterp spec fn ed25519_point(pk: Seq<u8>) -> bool;

/// Whether a public key accepts a 64-byte signature of a message.
pub uninterp spec fn ed25519_accepts(pk: Seq<u8>, msg: Seq<u8>, sig: Seq<u8>) -> bool;

/// Relies on `SigningKey::from_bytes` and `SigningKey::verifying_key` of
/// ed25519-dalek: the public key is the compressed form of a curve point, and
/// it accepts every signature that the secret key makes, each 64 bytes long.
#[verifier::external_body]
fn public_key_of(sk: &[u8; 32]) -> (r: [u8; 32])
    ensures
        r == ed25519_public(sk@),
        ed25519_point(r@),
        forall|m: Seq<u8>| #[trigger] ed25519_accepts(r@, m, ed25519_signature(sk@, m)@),
{
    ed25519_dalek::SigningKey::from_bytes(sk).verifying_key().to_bytes()
}

/// Relies on `Signer::sign` of ed25519-dalek's `SigningKey`: a deterministic
/// 64-byte signature of the whole message.
#[verifier::external_body]
fn sign_message(sk: &[u8; 32], msg: &[u8]) -> (r: [u8; 64])
    ensures
        r == ed25519_signature(sk@, msg@),
{
    ed25519_dalek::SigningKey::from_bytes(sk).sign(msg).to_bytes()
}

/// Relies on `VerifyingKey::from_bytes` of ed25519-dalek, which succeeds
/// exactly on the compressed form of a curve point.
#[verifier::external_body]
fn is_curve_point(pk: &[u8; 32]) -> (r: bool)
    ensures
        r == ed25519_point(pk@),
{
    ed25519_dalek::VerifyingKey::from_bytes(pk).is_ok()
}

/// Relies on `Verifier::verify` of ed25519-dalek's `VerifyingKey`.
#[verifier::external_body]
fn signature_accepted(pk: &[u8; 32], msg: &[u8], sig: &[u8; 64]) -> (r: bool)
    requires
        ed25519_point(pk@),
    ensures
        r == ed25519_accepts(pk@, msg@, sig@),
{
    match ed25519_dalek::VerifyingKey::from_bytes(pk) {
        Ok(k) => k.verify(msg, &ed25519_dalek::Signature::from_bytes(sig)).is_ok(),
        Err(_) => false,
    }
}

/// Relies on `SigningKey::generate` of ed25519-dalek over the operating
/// system's random source: 32 fresh secret bytes.
#[verifier::external_body]
fn random_secret_key() -> (r: [u8; 32]) {
    ed25519_dalek::SigningKey::generate(&mut OsRng).to_bytes()
}

/// The private half of an Ed25519 key pair: it signs.
pub struct Ed25519Signer {
    key: [u8; 32],
}

/// The public half of an Ed25519 key pair: it verifies.
pub struct Ed25519Verifier {
    key: [u8; 32],
}

impl View for Ed25519Signer {
    type V = Seq<u8>;

    closed spec fn view(&self) -> Seq<u8> {
        self.key@
    }
}

impl View for Ed25519Verifier {
    type V = Seq<u8>;

    closed spec fn view(&self) -> Seq<u8> {
        self.key@
    }
}

/// What checking a signature gives: a signature that is not 64 bytes long is
/// refused before the cryptographic check; otherwise whether the key accepts it.
pub open spec fn ed25519_verified(pk: Seq<u8>, data: Seq<u8>, sig: Seq<u8>) -> Result<bool, TextError> {
    if sig.len() != 64 {
        Err(TextError::MalformedInput)
    } else {
        Ok(ed25519_accepts(pk, data, sig))
    }
}

/// Whether blobs are a secret key followed by its public counterpart, which
/// accepts every signature that the secret key makes.
pub open spec fn is_ed25519_pair(keys: Seq<Seq<u8>>) -> bool {
    &&& keys.len() == 2
    &&& keys[0].len() == 32
    &&& keys[1].len() == 32
    &&& keys[1] == ed25519_public(keys[0])@
    &&& ed25519_point(keys[1])
    &&& forall|m: Seq<u8>| #[trigger] ed25519_accepts(keys[1], m, ed25519_signature(keys[0], m)@)
}

impl Ed25519Signer {
    /// A signer over the given secret key.
    pub fn new(key: [u8; 32]) -> (r: Self)
        ensures
            r@ == key@,
    {
        Ed25519Signer { key }
    }

    /// A signer over the given secret key bytes, which must be exactly 32.
    pub fn try_new(key: &[u8]) -> (r: Result<Self, TextError>)
        ensures
            match r {
                Ok(s) => key@.len() == 32 && s@ == key@,
                Err(e) => e == TextError::KeyFormat && key@.len() != 32,
            },
    {
        if key.len() != 32 {
            return Err(TextError::KeyFormat);
        }
        let k: [u8; 32] = byte_array(key);
        Ok(Ed25519Signer::new(k))
    }

    /// The public counterpart of this key, which verifies every signature
    /// that this key makes.
    pub fn verifying_key(&self) -> (r: Ed25519Verifier)
        ensures
            r@ == ed25519_public(self@)@,
            forall|m: Seq<u8>| #[trigger] r.verified(m, self.signed(m)) == Ok::<bool, TextError>(true),
    {
        let pk = public_key_of(&self.key);
        let v = Ed25519Verifier { key: pk };
        assert forall|m: Seq<u8>| #[trigger] v.verified(m, self.signed(m)) == Ok::<bool, TextError>(true) by {
            assert(ed25519_accepts(pk@, m, ed25519_signature(self.key@, m)@));
        }
        v
    }
}

impl Ed25519Verifier {
    #[verifier::type_invariant]
    spec fn inv(&self) -> bool {
        ed25519_point(self.key@)
    }

    /// A verifier over the given public key, which must be a curve point.
    pub fn new(key: [u8; 32]) -> (r: Self)
        requires
            ed25519_point(key@),
        ensures
            r@ == key@,
    {
        Ed25519Verifier { key }
    }

    /// A verifier over the given public key bytes, which must be exactly 32
    /// and the compressed form of a curve point.
    pub fn try_new(key: &[u8]) -> (r: Result<Self, TextError>)
        ensures
            match r {
                Ok(v) => key@.len() == 32 && ed25519_point(key@) && v@ == key@,
                Err(e) => e == TextError::KeyFormat && (key@.len() != 32 || !ed25519_point(key@)),
            },
    {
        if key.len() != 32 {
            return Err(TextError::KeyFormat);
        }
        let k: [u8; 32] = byte_array(key);
        if !is_curve_point(&k) {
            return Err(TextError::KeyFormat);
        }
        Ok(Ed25519Verifier::new(k))
    }
}

impl TextSign for Ed25519Signer {
    open spec fn signed(&self, data: Seq<u8>) -> Seq<u8> {
        ed25519_signature(self@, data)@
    }

    fn sign(&self, data: &[u8]) -> (r: Vec<u8>) {
        let sig = sign_message(&self.key, data);
        vstd::slice::slice_to_vec(&sig)
    }
}

impl TextVerify for Ed25519Verifier {
    open spec fn verified(&self, data: Seq<u8>, sig: Seq<u8>) -> Result<bool, TextError> {
        ed25519_verified(self@, data, sig)
    }

    fn verify(&self, data: &[u8], sig: &[u8]) -> (r: Result<bool, TextError>) {
        if sig.len() != 64 {
            return Err(TextError::MalformedInput);
        }
        let s: [u8; 64] = byte_array(sig);
        proof {
            use_type_invariant(self);
        }
        Ok(signature_accepted(&self.key, data, &s))
    }
}

impl KeyLoader for Ed25519Signer {
    open spec fn accepts(key: Seq<u8>) -> bool {
        key.len() == 32
    }

    open spec fn key_bytes(&self) -> Seq<u8> {
        self@
    }

    fn load(key: &[u8]) -> (r: Result<Self, TextError>) {
        Ed25519Signer::try_new(key)
    }
}

impl KeyLoader for Ed25519Verifier {
    open spec fn accepts(key: Seq<u8>) -> bool {
        key.len() == 32 && ed25519_point(key)
    }

    open spec fn key_bytes(&self) -> Seq<u8> {
        self@
    }

    fn load(key: &[u8]) -> (r: Result<Self, TextError>) {
        Ed25519Verifier::try_new(key)
    }
}

impl KeyGenerator for Ed25519Signer {
    open spec fn generated(keys: Seq<Seq<u8>>) -> bool {
        is_ed25519_pair(keys)
    }

    fn generate() -> (r: Vec<Vec<u8>>) {
        let signer = Ed25519Signer::new(random_secret_key());
        let public = signer.verifying_key();
        let sk = vstd::slice::slice_to_vec(&signer.key);
        let pk = vstd::slice::slice_to_vec(&public.key);
        let r = vec![sk, pk];
        proof {
            use_type_invariant(&public);
            assert(r.deep_view()[0] == signer@);
            assert(r.deep_view()[1] == public@);
            assert forall|m: Seq<u8>| #[trigger]
                ed25519_accepts(r.deep_view()[1], m, ed25519_signature(r.deep_view()[0], m)@) by {
                assert(public.verified(m, signer.signed(m)) == Ok::<bool, TextError>(true));
            }
        }
        r
    }
}

} // verus!
