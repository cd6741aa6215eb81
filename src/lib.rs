//! Authenticate, sign and encrypt byte buffers with one of three algorithm
//! families, and carry the binary results as URL-safe base64 text.
pub mod error;
pub mod cipher;
pub mod cli;
pub mod engine;
pub mod format;
pub mod genpass;
pub mod jwt;
pub mod keyed_hash;
pub mod listing;
pub mod signature;
pub mod text;
pub mod transport;

pub use cipher::ChaCha20Poly1305Cipher;
pub use cli::{
    key_file_names, verify_file, verify_path, Base64DecodeOpts, Base64EncodeOpts, Base64SubCommand,
    HttpServeOpts, HttpSubCommand, JwtSignOpts, JwtSubCommand, JwtVerifyOpts, Opts, SubCommand,
    TextDecryptOpts, TextEncryptOpts, TextKeyGenerateOpts, TextSignOpts, TextSubCommand,
    TextVerifyOpts,
};
pub use error::TextError;
pub use engine::{KeyGenerator, KeyLoader, TextSign, TextVerify};
pub use format::{parse_format, Base64Format, TextSignFormat};
pub use genpass::{process_genpass, GenPassOpts};
pub use jwt::{parse_duration, Claims, DurationError};
pub use keyed_hash::Blake3;
pub use listing::directory_listing;
pub use signature::{Ed25519Signer, Ed25519Verifier};
pub use text::{process_text_decrypt, process_text_encrypt, process_text_generate, process_text_sign, process_text_verify};
pub use transport::{decode_base64, decode_transport, encode_transport, process_decode, process_encode};
