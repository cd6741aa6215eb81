use vstd::prelude::*;

verus! {

/// The failures of the sign, verify, generate and cipher operations.
#[derive(Debug, Clone, Copy, PartialEq, Eq, Structural)]
pub enum TextError {
    /// The key bytes do not have the shape the algorithm and role require.
    KeyFormat,
    /// A signature, digest or envelope has the wrong length for its kind.
    MalformedInput,
    /// The authentication tag of an envelope does not verify.
    AuthenticationFailure,
    /// A text is not valid URL-safe unpadded base64.
    Encoding,
    /// The algorithm cannot perform the requested operation.
    UnsupportedOperation,
    /// Decrypted bytes are not valid UTF-8 text.
    InvalidText,
}

impl TextError {
    /// A short human-readable description of the failure.
    pub fn message(&self) -> (r: &'static str) {
        match self {
            TextError::KeyFormat => "key has the wrong format for the algorithm",
            TextError::MalformedInput => "input has the wrong length for its kind",
            TextError::AuthenticationFailure => "authentication failed",
            TextError::Encoding => "invalid base64 text",
            TextError::UnsupportedOperation => "operation not supported by the algorithm",
            TextError::InvalidText => "decrypted data is not valid UTF-8 text",
        }
    }
}

} // verus!
