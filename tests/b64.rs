use rcli::{decode_base64, decode_transport, encode_transport, process_decode, process_encode, Base64Format, TextError};

#[test]
fn test_process_encode() {
    let input = b"[package]\nname = \"rcli\"\n";
    let format = Base64Format::Standard;
    assert_eq!(process_encode(input, format), "W3BhY2thZ2VdCm5hbWUgPSAicmNsaSIK");
}

#[test]
fn test_process_decode() {
    let input = "aGVsbG8gd29ybGQ\n";
    let format = Base64Format::UrlSafe;
    assert_eq!(process_decode(input, format).unwrap(), b"hello world".to_vec());
}

#[test]
fn encode_uses_each_alphabet() {
    assert_eq!(process_encode(b"hello world", Base64Format::Standard), "aGVsbG8gd29ybGQ=");
    assert_eq!(process_encode(b"hello world", Base64Format::UrlSafe), "aGVsbG8gd29ybGQ");
    assert_eq!(process_encode(&[251, 255, 254], Base64Format::UrlSafe), "-__-");
    assert_eq!(process_encode(&[251, 255, 254], Base64Format::Standard), "+//+");
    assert_eq!(process_encode(b"", Base64Format::Standard), "");
}

#[test]
fn decode_rejects_invalid_text() {
    assert_eq!(process_decode("a$b", Base64Format::UrlSafe), Err(TextError::Encoding));
    assert_eq!(process_decode("+//+", Base64Format::UrlSafe), Err(TextError::Encoding));
    assert_eq!(decode_base64("aGVsbG8", Base64Format::Standard), Err(TextError::Encoding));
    assert_eq!(decode_base64("aGVsbG8=", Base64Format::Standard), Ok(b"hello".to_vec()));
    assert_eq!(process_decode("  aGVsbG8=\n", Base64Format::Standard), Ok(b"hello".to_vec()));
}

#[test]
fn transport_round_trip_for_all_lengths() {
    for len in [0usize, 1, 2, 3, 4, 31, 32, 64, 1000] {
        let v: Vec<u8> = (0..len).map(|i| (i * 37 + 11) as u8).collect();
        let t = encode_transport(&v);
        assert!(!t.contains('='));
        assert!(!t.contains('+'));
        assert!(!t.contains('/'));
        assert_eq!(decode_transport(&t), Ok(v));
    }
    assert_eq!(encode_transport(&[]), "");
    assert_eq!(decode_transport(""), Ok(vec![]));
}

#[test]
fn transport_text_is_url_safe_base64() {
    assert_eq!(encode_transport(&[251, 255, 254]), "-__-");
    assert_eq!(decode_transport("-__-"), Ok(vec![251, 255, 254]));
    assert_eq!(decode_transport("not base64!"), Err(TextError::Encoding));
}
