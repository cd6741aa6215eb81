use vstd::prelude::*;

verus! {

/// The algorithm families: keyed hashing, asymmetric signatures and
/// authenticated symmetric encryption.
#[derive(Debug, Clone, Copy, PartialEq, Eq, Structural)]
pub enum TextSignFormat {
    Blake3,
    Ed25519,
    ChaCha20Poly1305,
}

/// The two base64 alphabets: standard with padding, URL-safe without.
#[derive(Debug, Clone, Copy, PartialEq, Eq, Structural)]
pub enum Base64Format {
    Standard,
    UrlSafe,
}

/// The name of each algorithm on the command line and in key file names.
pub open spec fn format_name(f: TextSignFormat) -> Seq<char> {
    match f {
        TextSignFormat::Blake3 => "blake3"@,
        TextSignFormat::Ed25519 => "ed25519"@,
        TextSignFormat::ChaCha20Poly1305 => "chacha20poly1305"@,
    }
}

/// The message of a name that no algorithm has.
pub open spec fn invalid_format_message(s: Seq<char>) -> Seq<char> {
    "Invalid format: "@ + s
}

impl TextSignFormat {
    /// The algorithm's name.
    pub fn name(&self) -> (r: &'static str)
        ensures
            r@ == format_name(*self),
    {
        match self {
            TextSignFormat::Blake3 => "blake3",
            TextSignFormat::Ed25519 => "ed25519",
            TextSignFormat::ChaCha20Poly1305 => "chacha20poly1305",
        }
    }
}

impl std::str::FromStr for TextSignFormat {
    type Err = String;

    fn from_str(s: &str) -> Result<Self, Self::Err> {
        parse_format(s)
    }
}

/// Reads an algorithm from its name.
pub fn parse_format(s: &str) -> (r: Result<TextSignFormat, String>)
    ensures
        match r {
            Ok(f) => format_name(f) == s@,
            Err(m) => m@ == invalid_format_message(s@) && forall|f: TextSignFormat|
                format_name(f) != s@,
        },
{
    proof {
        reveal_strlit("blake3");
        reveal_strlit("ed25519");
        reveal_strlit("chacha20poly1305");
    }
    if str_eq(s, "blake3") {
        Ok(TextSignFormat::Blake3)
    } else if str_eq(s, "ed25519") {
        Ok(TextSignFormat::Ed25519)
    } else if str_eq(s, "chacha20poly1305") {
        Ok(TextSignFormat::ChaCha20Poly1305)
    } else {
        let mut m = String::from_str("Invalid format: ");
        m.append(s);
        Err(m)
    }
}

/// Whether two strings hold the same characters.
pub(crate) fn str_eq(a: &str, b: &str) -> (r: bool)
    ensures
        r == (a@ == b@),
{
    let n = a.unicode_len();
    if n != b.unicode_len() {
        return false;
    }
    let mut i: usize = 0;
    while i < n
        invariant
            n == a@.len(),
            n == b@.len(),
            0 <= i <= n,
            forall|j: int| 0 <= j < i ==> a@[j] == b@[j],
        decreases n - i,
    {
        if a.get_char(i) != b.get_char(i) {
            return false;
        }
        i = i + 1;
    }
    assert(a@ =~= b@);
    true
}

} // verus!
