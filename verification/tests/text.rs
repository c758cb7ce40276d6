use jade_client::text;
use jade_client::text::{fingerprint_text, push_decimal, same, starts_with, trim};

fn decimal(n: u64) -> String {
    let mut out = String::new();
    push_decimal(&mut out, n);
    out
}

#[test]
fn numbers_read_as_usual() {
    for n in [0, 7, 10, 99, 100, 1_000_000_007, u64::MAX] {
        assert_eq!(decimal(n), n.to_string());
    }
}

#[test]
fn fingerprints_read_as_eight_digits() {
    assert_eq!(fingerprint_text(0), "00000000");
    assert_eq!(fingerprint_text(0x3442193e), "3442193e");
    assert_eq!(fingerprint_text(u32::MAX), "ffffffff");
    assert_eq!(
        fingerprint_text(0x0abcdef1),
        format!("{:08x}", bitcoin::bip32::Fingerprint::from([0x0a, 0xbc, 0xde, 0xf1]))
    );
}

#[test]
fn fingerprints_sort_as_their_texts() {
    let numbers = [0x2au32, 0x3442193e, 0xa0000000, 0xff000001];
    let texts: Vec<String> = numbers.iter().map(|n| fingerprint_text(*n)).collect();
    let mut sorted = texts.clone();
    sorted.sort();
    assert_eq!(texts, sorted);
}

#[test]
fn white_space_is_trimmed_as_usual() {
    for s in ["", " ", "m", " m/0' ", "\t m \u{a0}\u{2003}x\u{3000}\n", "\u{200b}m\u{feff}"] {
        assert_eq!(trim(s), s.trim());
    }
}

#[test]
fn white_space_is_the_unicode_property() {
    for code in 0..=0x10ffffu32 {
        if let Some(c) = char::from_u32(code) {
            let expected = matches!(
                code,
                0x09..=0x0d
                    | 0x20
                    | 0x85
                    | 0xa0
                    | 0x1680
                    | 0x2000..=0x200a
                    | 0x2028
                    | 0x2029
                    | 0x202f
                    | 0x205f
                    | 0x3000
            );
            assert_eq!(c.is_whitespace(), expected);
        }
    }
}

#[test]
fn texts_are_joined_and_compared() {
    assert_eq!(text::concat("ab", "c"), "abc");
    assert!(same("a\u{e9}", "a\u{e9}"));
    assert!(!same("a", "b"));
    assert!(starts_with("caf\u{e9}s", "caf\u{e9}"));
    assert!(!starts_with("caf", "caf\u{e9}"));
    assert!(starts_with("x", ""));
}
