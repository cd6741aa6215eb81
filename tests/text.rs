use rcli::{
    decode_transport, encode_transport, process_text_decrypt, process_text_encrypt, process_text_generate,
    process_text_sign, process_text_verify, Blake3, ChaCha20Poly1305Cipher, Ed25519Signer, Ed25519Verifier,
    KeyGenerator, KeyLoader, TextError, TextSign, TextSignFormat, TextVerify,
};

fn hex(s: &str) -> Vec<u8> {
    (0..s.len()).step_by(2).map(|i| u8::from_str_radix(&s[i..i + 2], 16).unwrap()).collect()
}

fn data_of_len(len: usize) -> Vec<u8> {
    (0..len).map(|i| ((i * 131 + 7) % 251) as u8).collect()
}

fn flipped(v: &[u8], bit: usize) -> Vec<u8> {
    let mut w = v.to_vec();
    w[bit / 8] ^= 1 << (bit % 8);
    w
}

const LENGTHS: [usize; 4] = [0, 1, 4096, 1_000_000];

#[test]
fn take_blake3_sign_verify() {
    let blake3 = Blake3::load(b"0123456789abcdefghijklmnopqrstuv").unwrap();
    let data = b"hello";
    let sig = blake3.sign(&data[..]);
    assert!(blake3.verify(&data[..], &sig).unwrap());
}

#[test]
fn test_ed25519_sign_verify() {
    let keys = Ed25519Signer::generate();
    let sk = Ed25519Signer::load(&keys[0]).unwrap();
    let pk = Ed25519Verifier::load(&keys[1]).unwrap();

    let data = b"hello";
    let sig = sk.sign(&data[..]);
    assert!(pk.verify(&data[..], &sig).unwrap());
}

#[test]
fn test_chacha20poly1305() {
    let key = ChaCha20Poly1305Cipher::generate();
    let cipher = ChaCha20Poly1305Cipher::try_new(&key[0]).unwrap();
    let ciphertext = cipher.encrypt(b"plaintext message".as_ref()).unwrap();
    let plaintext = cipher.decrypt(ciphertext.as_ref()).unwrap();
    assert_eq!(&plaintext, b"plaintext message");
}

#[test]
fn keyed_hash_matches_reference_digest() {
    let blake3 = Blake3::new([0u8; 32]);
    let expected = hex("e0f68bfec361216ec02fc15736643a70471d96260b0fe6f273a909bb8b6dbd81");
    assert_eq!(blake3.sign(b"hello"), expected);
    assert_eq!(blake3.sign(b"hello"), expected);
    assert_eq!(
        process_text_sign(b"hello", &[0u8; 32], TextSignFormat::Blake3),
        Ok("4PaL_sNhIW7AL8FXNmQ6cEcdliYLD-byc6kJu4ttvYE".to_string())
    );
}

#[test]
fn ed25519_matches_reference_vector() {
    let sk = hex("9d61b19deffd5a60ba844af492ec2cc44449c5697b326919703bac031cae7f60");
    let pk = hex("d75a980182b10ab7d54bfed3c964073a0ee172f3daa62325af021a68f707511a");
    let expected = hex(
        "e5564300c360ac729086e2cc806e828a84877f1eb8e5d974d873e065224901555fb8821590a33bacc61e39701cf9b46bd25bf5f0595bbe24655141438e7a100b",
    );
    let signer = Ed25519Signer::try_new(&sk).unwrap();
    let sig = signer.sign(b"");
    assert_eq!(sig, expected);
    let verifier = Ed25519Verifier::try_new(&pk).unwrap();
    assert_eq!(verifier.verify(b"", &sig), Ok(true));
    assert_eq!(signer.verifying_key().verify(b"", &sig), Ok(true));
}

#[test]
fn sign_then_verify_holds_for_every_family_and_length() {
    for len in LENGTHS {
        let data = data_of_len(len);

        let key = Blake3::generate();
        let sig = process_text_sign(&data, &key[0], TextSignFormat::Blake3).unwrap();
        assert_eq!(process_text_verify(&data, &key[0], TextSignFormat::Blake3, &sig), Ok(true));

        let pair = process_text_generate(TextSignFormat::Ed25519);
        let sig = process_text_sign(&data, &pair[0], TextSignFormat::Ed25519).unwrap();
        assert_eq!(process_text_verify(&data, &pair[1], TextSignFormat::Ed25519, &sig), Ok(true));

        let key = process_text_generate(TextSignFormat::ChaCha20Poly1305);
        let cipher = ChaCha20Poly1305Cipher::try_new(&key[0]).unwrap();
        let env = cipher.encrypt(&data).unwrap();
        assert_eq!(env.len(), 12 + len + 16);
        assert_eq!(cipher.decrypt(&env), Ok(data.clone()));
    }
}

#[test]
fn flipped_data_bit_fails_verification() {
    let data = data_of_len(48);
    let key = [7u8; 32];
    let blake3 = Blake3::new(key);
    let digest = blake3.sign(&data);
    let pair = process_text_generate(TextSignFormat::Ed25519);
    let signer = Ed25519Signer::try_new(&pair[0]).unwrap();
    let verifier = Ed25519Verifier::try_new(&pair[1]).unwrap();
    let sig = signer.sign(&data);
    for bit in 0..data.len() * 8 {
        let tampered = flipped(&data, bit);
        assert_eq!(blake3.verify(&tampered, &digest), Ok(false));
        assert_eq!(verifier.verify(&tampered, &sig), Ok(false));
    }
    let big = data_of_len(4096);
    let text = process_text_sign(&big, &key, TextSignFormat::Blake3).unwrap();
    for bit in [0, 1, 17, 4096 * 8 - 1] {
        assert_eq!(process_text_verify(&flipped(&big, bit), &key, TextSignFormat::Blake3, &text), Ok(false));
    }
}

#[test]
fn encrypt_then_decrypt_round_trips() {
    let key = [9u8; 32];
    let cipher = ChaCha20Poly1305Cipher::new(key);
    for len in [0usize, 1, 15, 16, 17, 4096] {
        let data = data_of_len(len);
        let env = cipher.encrypt(&data).unwrap();
        assert_eq!(cipher.decrypt(&env), Ok(data));
    }
    let text = process_text_encrypt(b"attack at dawn", &key).unwrap();
    assert_eq!(process_text_decrypt(&text, &key), Ok("attack at dawn".to_string()));
    assert_eq!(process_text_decrypt(&format!("{}\n", text), &key), Ok("attack at dawn".to_string()));
    let empty = process_text_encrypt(b"", &key).unwrap();
    assert_eq!(process_text_decrypt(&empty, &key), Ok(String::new()));
}

#[test]
fn encryption_uses_a_fresh_nonce_each_time() {
    let cipher = ChaCha20Poly1305Cipher::new([3u8; 32]);
    let mut seen = std::collections::HashSet::new();
    for _ in 0..1000 {
        let env = cipher.encrypt(b"same plaintext").unwrap();
        assert!(seen.insert(env));
    }
}

#[test]
fn encrypt_with_a_given_nonce_is_deterministic() {
    let cipher = ChaCha20Poly1305Cipher::new([5u8; 32]);
    let a = cipher.encrypt_with_nonce([1u8; 12], b"message").unwrap();
    let b = cipher.encrypt_with_nonce([1u8; 12], b"message").unwrap();
    assert_eq!(a, b);
    assert_eq!(&a[..12], &[1u8; 12]);
    assert_ne!(&a[12..19], b"message");
    let c = cipher.encrypt_with_nonce([2u8; 12], b"message").unwrap();
    assert_ne!(a, c);
}

#[test]
fn flipped_envelope_bit_fails_authentication() {
    let cipher = ChaCha20Poly1305Cipher::new([11u8; 32]);
    let env = cipher.encrypt(b"secret").unwrap();
    for bit in 0..env.len() * 8 {
        assert_eq!(cipher.decrypt(&flipped(&env, bit)), Err(TextError::AuthenticationFailure));
    }
    let other = ChaCha20Poly1305Cipher::new([12u8; 32]);
    assert_eq!(other.decrypt(&env), Err(TextError::AuthenticationFailure));
}

#[test]
fn generate_gives_keys_of_the_right_shape() {
    let k = process_text_generate(TextSignFormat::Blake3);
    assert_eq!(k.len(), 1);
    assert_eq!(k[0].len(), 32);
    assert!(k[0].iter().all(|c| (33..=126).contains(c)));
    assert!(k[0].iter().any(|c| c.is_ascii_uppercase()));
    assert!(k[0].iter().any(|c| c.is_ascii_lowercase()));
    assert!(k[0].iter().any(|c| c.is_ascii_digit()));

    let pair = process_text_generate(TextSignFormat::Ed25519);
    assert_eq!(pair.len(), 2);
    assert_eq!(pair[0].len(), 32);
    assert_eq!(pair[1].len(), 32);
    let signer = Ed25519Signer::try_new(&pair[0]).unwrap();
    let verifier = Ed25519Verifier::try_new(&pair[1]).unwrap();
    let data = b"arbitrary data";
    assert_eq!(verifier.verify(data, &signer.sign(data)), Ok(true));

    let c = process_text_generate(TextSignFormat::ChaCha20Poly1305);
    assert_eq!(c.len(), 1);
    assert_eq!(c[0].len(), 32);
    assert_ne!(process_text_generate(TextSignFormat::ChaCha20Poly1305), c);
}

#[test]
fn short_signature_is_malformed() {
    let pair = process_text_generate(TextSignFormat::Ed25519);
    let verifier = Ed25519Verifier::try_new(&pair[1]).unwrap();
    assert_eq!(verifier.verify(b"hello", &[0u8; 10]), Err(TextError::MalformedInput));
    let text = encode_transport(&[0u8; 10]);
    assert_eq!(
        process_text_verify(b"hello", &pair[1], TextSignFormat::Ed25519, &text),
        Err(TextError::MalformedInput)
    );
    let blake3 = Blake3::new([0u8; 32]);
    assert_eq!(blake3.verify(b"hello", &[0u8; 10]), Err(TextError::MalformedInput));
}

#[test]
fn short_envelope_is_malformed() {
    let cipher = ChaCha20Poly1305Cipher::new([0u8; 32]);
    assert_eq!(cipher.decrypt(&[1, 2, 3, 4, 5]), Err(TextError::MalformedInput));
    let text = encode_transport(&[1, 2, 3, 4, 5]);
    assert_eq!(process_text_decrypt(&text, &[0u8; 32]), Err(TextError::MalformedInput));
    assert_eq!(cipher.decrypt(&[0u8; 12]), Err(TextError::AuthenticationFailure));
}

#[test]
fn wrong_key_lengths_are_refused() {
    for len in [0usize, 16, 31, 33, 64] {
        let key = vec![1u8; len];
        assert!(matches!(Blake3::try_new(&key), Err(TextError::KeyFormat)));
        assert!(matches!(Ed25519Signer::try_new(&key), Err(TextError::KeyFormat)));
        assert!(matches!(Ed25519Verifier::try_new(&key), Err(TextError::KeyFormat)));
        assert!(matches!(ChaCha20Poly1305Cipher::try_new(&key), Err(TextError::KeyFormat)));
        assert_eq!(process_text_sign(b"x", &key, TextSignFormat::Blake3), Err(TextError::KeyFormat));
        assert_eq!(process_text_encrypt(b"x", &key), Err(TextError::KeyFormat));
        assert_eq!(process_text_decrypt("AAAA", &key), Err(TextError::KeyFormat));
    }
}

#[test]
fn orchestration_errors() {
    let key = [0u8; 32];
    assert_eq!(
        process_text_sign(b"x", &key, TextSignFormat::ChaCha20Poly1305),
        Err(TextError::UnsupportedOperation)
    );
    let sig = encode_transport(&[0u8; 32]);
    assert_eq!(
        process_text_verify(b"x", &key, TextSignFormat::ChaCha20Poly1305, &sig),
        Err(TextError::UnsupportedOperation)
    );
    assert_eq!(process_text_verify(b"x", &key, TextSignFormat::Blake3, "***"), Err(TextError::Encoding));
    assert_eq!(process_text_decrypt("***", &key), Err(TextError::Encoding));
    let cipher = ChaCha20Poly1305Cipher::new(key);
    let env = cipher.encrypt(&[0xff, 0xfe]).unwrap();
    assert_eq!(process_text_decrypt(&encode_transport(&env), &key), Err(TextError::InvalidText));
    assert_eq!(decode_transport(&encode_transport(&env)), Ok(env));
}

#[test]
fn verifying_key_rejects_points_off_the_curve() {
    let mut bad = None;
    for b in 0u8..=255 {
        let mut k = [b; 32];
        k[31] &= 0x7f;
        if Ed25519Verifier::try_new(&k).is_err() {
            bad = Some(k);
            break;
        }
    }
    let k = bad.expect("some 32-byte pattern is not a curve point");
    assert!(matches!(Ed25519Verifier::try_new(&k), Err(TextError::KeyFormat)));
    let sig = encode_transport(&[0u8; 64]);
    assert_eq!(process_text_verify(b"x", &k, TextSignFormat::Ed25519, &sig), Err(TextError::KeyFormat));
}

#[test]
fn errors_have_messages() {
    assert_eq!(TextError::AuthenticationFailure.message(), "authentication failed");
    assert_ne!(TextError::KeyFormat.message(), TextError::MalformedInput.message());
}
