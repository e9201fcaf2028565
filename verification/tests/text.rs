use ferron::text::{append_number, append_padded, is_space, join, parse_count, same, same_lowered, trim};

/// White space is what the standard library takes it to be.
#[test]
fn white_space_is_unicodes() {
    for code in 0..0x3100u32 {
        if let Some(c) = char::from_u32(code) {
            assert_eq!(is_space(c), c.is_whitespace(), "{code:#x}");
        }
    }
}

#[test]
fn texts_are_trimmed() {
    for text in ["", " ", "a", " a b \t", "\u{a0}x\u{3000}", "\n\n"] {
        assert_eq!(trim(text), text.trim());
    }
}

#[test]
fn texts_are_told_apart() {
    assert!(same("1", "1"));
    assert!(!same("1", "1 "));
    assert!(same_lowered("SPONZA", "sponza"));
    assert!(!same_lowered("sponz", "sponza"));
    assert!(!same_lowered("É", "é"));
}

/// Counts are read as the standard library reads them.
#[test]
fn counts_are_read() {
    for text in [
        "", "+", "-", "0", "00", "7", "+7", "-7", "-0", "1_000", " 1", "1 ", "x", "12a",
        "18446744073709551615", "18446744073709551616", "99999999999999999999999999", "٣",
    ] {
        assert_eq!(parse_count(text), text.parse::<usize>().ok(), "{text:?}");
    }
}

#[test]
fn numbers_are_written() {
    for value in [0u64, 1, 9, 10, 255, 4096, u64::MAX] {
        let mut text = "n".to_string();
        append_number(&mut text, value, 10);
        assert_eq!(text, format!("n{value}"));
        let mut text = String::new();
        append_padded(&mut text, value, 16, 4);
        assert_eq!(text, format!("{value:04X}"));
        let mut text = String::new();
        append_padded(&mut text, value, 10, 3);
        assert_eq!(text, format!("{value:03}"));
    }
}

#[test]
fn parts_are_joined() {
    let parts = |parts: &[&str]| parts.iter().map(|part| part.to_string()).collect::<Vec<_>>();
    assert_eq!(join(&parts(&[]), "+"), "");
    assert_eq!(join(&parts(&["a"]), "+"), "a");
    assert_eq!(join(&parts(&["a", "", "b"]), "+"), "a++b");
}
