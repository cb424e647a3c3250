use freebuff_shell::text::{ascii_alphanumeric, chars_of, push_decimal, same_text, white_space};

#[test]
fn white_space_matches_std_for_every_char() {
    for u in 0u32..=0x10FFFF {
        if let Some(c) = char::from_u32(u) {
            assert_eq!(white_space(c), c.is_whitespace(), "U+{:04X}", u);
        }
    }
}

#[test]
fn alphanumeric_matches_std_for_every_char() {
    for u in 0u32..=0x10FFFF {
        if let Some(c) = char::from_u32(u) {
            assert_eq!(ascii_alphanumeric(c), c.is_ascii_alphanumeric(), "U+{:04X}", u);
        }
    }
}

#[test]
fn decimal_forms() {
    for n in [0u128, 7, 10, 99, 100, 8787, 65535, 1234567890123] {
        let mut s = String::from("x=");
        push_decimal(&mut s, n);
        assert_eq!(s, format!("x={}", n));
    }
}

#[test]
fn chars_and_equality() {
    assert_eq!(chars_of("a密b"), vec!['a', '密', 'b']);
    assert!(same_text("quit", "quit"));
    assert!(!same_text("quit", "quit "));
    assert!(!same_text("", "a"));
    assert!(same_text("", ""));
}
