use vstd::prelude::*;

use crate::format::{format_name, TextSignFormat};
use crate::genpass::GenPassOpts;

verus! {

/// Options of base64 encoding.
#[derive(Debug)]
pub struct Base64EncodeOpts {
    pub input: String,
}

/// Options of base64 decoding.
#[derive(Debug)]
pub struct Base64DecodeOpts {
    pub input: String,
}

/// The base64 commands.
#[derive(Debug)]
pub enum Base64SubCommand {
    Encode(Base64EncodeOpts),
    Decode(Base64DecodeOpts),
}

/// Options of the directory server.
#[derive(Debug)]
pub struct HttpServeOpts {
    pub dir: String,
    pub port: u16,
}

/// The HTTP commands.
#[derive(Debug)]
pub enum HttpSubCommand {
    Serve(HttpServeOpts),
}

/// Options of token signing.
#[derive(Debug)]
pub struct JwtSignOpts {
    pub sub: String,
    pub aud: String,
    pub exp: String,
}

/// Options of token verification.
#[derive(Debug)]
pub struct JwtVerifyOpts {
    pub token: String,
}

/// The token commands.
#[derive(Debug)]
pub enum JwtSubCommand {
    Sign(JwtSignOpts),
    Verify(JwtVerifyOpts),
}

/// Options of signing: the key file, the input (`-` for standard input) and
/// the algorithm.
#[derive(Debug)]
pub struct TextSignOpts {
    pub key: String,
    pub input: String,
    pub format: TextSignFormat,
}

/// Options of verifying: as for signing, with the signature text.
#[derive(Debug)]
pub struct TextVerifyOpts {
    pub key: String,
    pub input: String,
    pub format: TextSignFormat,
    pub sig: String,
}

/// Options of key generation: the algorithm and the output directory.
#[derive(Debug)]
pub struct TextKeyGenerateOpts {
    pub format: TextSignFormat,
    pub output: String,
}

/// Options of encryption.
#[derive(Debug)]
pub struct TextEncryptOpts {
    pub key: String,
    pub input: String,
}

/// Options of decryption.
#[derive(Debug)]
pub struct TextDecryptOpts {
    pub key: String,
    pub input: String,
}

/// The sign, verify, generate and cipher commands.
#[derive(Debug)]
pub enum TextSubCommand {
    Sign(TextSignOpts),
    Verify(TextVerifyOpts),
    Generate(TextKeyGenerateOpts),
    Encrypt(TextEncryptOpts),
    Decrypt(TextDecryptOpts),
}

/// The commands of the tool.
pub enum SubCommand {
    GenPass(GenPassOpts),
    Base64(Base64SubCommand),
    Text(TextSubCommand),
    Http(HttpSubCommand),
    Jwt(JwtSubCommand),
}

/// The parsed command line.
pub struct Opts {
    pub cmd: SubCommand,
}

/// Accepts an input name: `-` for standard input, or a file that exists.
pub fn verify_file(filename: &str, exists: bool) -> (r: Result<String, &'static str>)
    ensures
        match r {
            Ok(s) => s@ == filename@ && (filename@ == "-"@ || exists),
            Err(m) => m@ == "File not found"@ && filename@ != "-"@ && !exists,
        },
{
    if crate::format::str_eq(filename, "-") || exists {
        Ok(filename.to_owned())
    } else {
        Err("File not found")
    }
}

/// Accepts a path that names an existing directory.
pub fn verify_path(path: &str, is_dir: bool) -> (r: Result<String, &'static str>)
    ensures
        match r {
            Ok(s) => s@ == path@ && is_dir,
            Err(m) => m@ == "Path not found or is not a directory"@ && !is_dir,
        },
{
    if is_dir {
        Ok(path.to_owned())
    } else {
        Err("Path not found or is not a directory")
    }
}

/// The names of the files that generated key blobs are written to, in the
/// order of the blobs: `<algorithm>.key` for a symmetric key, `<algorithm>.sk`
/// and `<algorithm>.pk` for a key pair.
pub open spec fn key_file_names_of(format: TextSignFormat) -> Seq<Seq<char>> {
    match format {
        TextSignFormat::Ed25519 => seq![format_name(format) + ".sk"@, format_name(format) + ".pk"@],
        _ => seq![format_name(format) + ".key"@],
    }
}

/// The file names of the generated key blobs of an algorithm.
pub fn key_file_names(format: TextSignFormat) -> (r: Vec<String>)
    ensures
        r@.len() == key_file_names_of(format).len(),
        forall|i: int| 0 <= i < r@.len() ==> #[trigger] r@[i]@ == key_file_names_of(format)[i],
{
    let name = format.name();
    match format {
        TextSignFormat::Ed25519 => {
            let sk = String::from_str(name).concat(".sk");
            let pk = String::from_str(name).concat(".pk");
            vec![sk, pk]
        },
        _ => vec![String::from_str(name).concat(".key")],
    }
}

} // verus!
