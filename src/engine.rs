use vstd::prelude::*;

use crate::error::TextError;

verus! {

/// An algorithm that signs a whole input with the key it holds.
pub trait TextSign {
    /// The signature or digest of `data` under this key.
    spec fn signed(&self, data: Seq<u8>) -> Seq<u8>;

    /// Signs the complete data buffer.
    fn sign(&self, data: &[u8]) -> (r: Vec<u8>)
        ensures
            r@ == self.signed(data@),
    ;
}

/// An algorithm that checks a signature of a whole input with the key it holds.
pub trait TextVerify {
    /// Whether `sig` is a valid signature of `data` under this key, or why the
    /// check could not be made.
    spec fn verified(&self, data: Seq<u8>, sig: Seq<u8>) -> Result<bool, TextError>;

    /// Checks `sig` against the complete data buffer.
    fn verify(&self, data: &[u8], sig: &[u8]) -> (r: Result<bool, TextError>)
        ensures
            r == self.verified(data@, sig@),
    ;
}

/// Key material that is read from raw bytes.
pub trait KeyLoader: Sized {
    /// Whether the bytes have the shape this key requires.
    spec fn accepts(key: Seq<u8>) -> bool;

    /// The raw bytes of the key.
    spec fn key_bytes(&self) -> Seq<u8>;

    /// Reads the key; bytes of the wrong shape are refused, never truncated
    /// or padded.
    fn load(key: &[u8]) -> (r: Result<Self, TextError>)
        ensures
            match r {
                Ok(k) => Self::accepts(key@) && k.key_bytes() == key@,
                Err(e) => e == TextError::KeyFormat && !Self::accepts(key@),
            },
    ;
}

/// An algorithm that makes new key material from a secure random source.
pub trait KeyGenerator {
    /// Whether the blobs are key material this algorithm may have generated.
    spec fn generated(keys: Seq<Seq<u8>>) -> bool;

    /// Makes new key material, as one or more raw blobs.
    fn generate() -> (r: Vec<Vec<u8>>)
        ensures
            Self::generated(r.deep_view()),
    ;
}

/// Copies bytes into an array of the same length.
pub(crate) fn byte_array<const N: usize>(s: &[u8]) -> (r: [u8; N])
    requires
        s@.len() == N,
    ensures
        r@ == s@,
{
    let mut a = [0u8; N];
    let mut i: usize = 0;
    while i < N
        invariant
            s@.len() == N,
            0 <= i <= N,
            a@.len() == N,
            forall|j: int| 0 <= j < i ==> a@[j] == s@[j],
        decreases N - i,
    {
        a[i] = s[i];
        i = i + 1;
    }
    assert(a@ =~= s@);
    a
}

} // verus!
