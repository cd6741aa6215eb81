use rcli::{key_file_names, parse_format, verify_file, verify_path, TextSignFormat};

// Whether a name is on disk is found out by the caller; here `Cargo.toml`
// stands for a file that exists and `src` for a directory.
#[test]
fn test_verify_input_file() {
    assert_eq!(verify_file("-", false), Ok("-".into()));
    assert_eq!(verify_file("*", false), Err("File not found"));
    assert_eq!(verify_file("Cargo.toml", true), Ok("Cargo.toml".into()));
    assert_eq!(verify_file("not-exist", false), Err("File not found"));
}

#[test]
fn verify_path_accepts_only_directories() {
    assert_eq!(verify_path("src", true), Ok("src".into()));
    assert_eq!(verify_path("Cargo.toml", false), Err("Path not found or is not a directory"));
    assert_eq!(verify_path("not-exist", false), Err("Path not found or is not a directory"));
}

#[test]
fn parse_format_reads_each_algorithm_name() {
    assert_eq!(parse_format("blake3"), Ok(TextSignFormat::Blake3));
    assert_eq!(parse_format("ed25519"), Ok(TextSignFormat::Ed25519));
    assert_eq!(parse_format("chacha20poly1305"), Ok(TextSignFormat::ChaCha20Poly1305));
    assert_eq!(parse_format("rsa"), Err("Invalid format: rsa".to_string()));
    assert_eq!(parse_format(""), Err("Invalid format: ".to_string()));
    assert_eq!(parse_format("Blake3"), Err("Invalid format: Blake3".to_string()));
}

#[test]
fn format_names_round_trip() {
    for f in [TextSignFormat::Blake3, TextSignFormat::Ed25519, TextSignFormat::ChaCha20Poly1305] {
        assert_eq!(parse_format(f.name()), Ok(f));
    }
    assert_eq!(TextSignFormat::ChaCha20Poly1305.name(), "chacha20poly1305");
}

#[test]
fn key_files_follow_the_naming_convention() {
    assert_eq!(key_file_names(TextSignFormat::Blake3), vec!["blake3.key".to_string()]);
    assert_eq!(
        key_file_names(TextSignFormat::Ed25519),
        vec!["ed25519.sk".to_string(), "ed25519.pk".to_string()]
    );
    assert_eq!(
        key_file_names(TextSignFormat::ChaCha20Poly1305),
        vec!["chacha20poly1305.key".to_string()]
    );
}
