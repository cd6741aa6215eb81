use rcli::{process_genpass, GenPassOpts};

const SYMBOLS: &str = "!\"#$%&'()*+,-./:;<=>?@[\\]^_`{|}~";

#[test]
fn password_has_requested_length_and_classes() {
    for _ in 0..50 {
        let p = process_genpass(16, true, true, true, true);
        assert_eq!(p.len(), 16);
        assert!(p.chars().any(|c| c.is_ascii_uppercase()));
        assert!(p.chars().any(|c| c.is_ascii_lowercase()));
        assert!(p.chars().any(|c| c.is_ascii_digit()));
        assert!(p.chars().any(|c| SYMBOLS.contains(c)));
        assert!(p.chars().all(|c| c.is_ascii_graphic()));
    }
}

#[test]
fn password_uses_only_selected_classes() {
    let p = process_genpass(20, false, true, true, false);
    assert_eq!(p.len(), 18);
    assert!(p.chars().all(|c| c.is_ascii_lowercase() || c.is_ascii_digit()));
    let p = process_genpass(4, true, false, false, false);
    assert_eq!(p.len(), 1);
    assert!(p.chars().all(|c| c.is_ascii_uppercase()));
    assert_eq!(process_genpass(4, false, false, false, false), "");
    let p = process_genpass(10, false, false, false, true);
    assert_eq!(p.len(), 7);
    assert!(p.chars().all(|c| SYMBOLS.contains(c)));
}

#[test]
fn generated_password_is_rated() {
    let opts = GenPassOpts { length: 16, uppercase: true, lowercase: true, number: true, symbol: true };
    let (p, score) = opts.generate();
    assert_eq!(p.len(), 16);
    let s = score.expect("a non-empty password is rated");
    assert!(s <= 4);
    let opts = GenPassOpts { length: 4, uppercase: false, lowercase: false, number: false, symbol: false };
    assert_eq!(opts.generate(), (String::new(), None));
}
