use la_muralla::text::{decimal, from_chars, join, to_chars, trim, trimmed_span};

#[test]
fn numbers_in_decimal() {
    assert_eq!(decimal(0), "0");
    assert_eq!(decimal(7), "7");
    assert_eq!(decimal(10), "10");
    assert_eq!(decimal(1500), "1500");
    assert_eq!(decimal(9_876_543_210), "9876543210");
    assert_eq!(decimal(usize::MAX), format!("{}", usize::MAX));
}

#[test]
fn joining() {
    assert_eq!(join(&vec![], ", "), "");
    assert_eq!(join(&vec!["a".to_string()], ", "), "a");
    assert_eq!(join(&vec!["a".to_string(), "b".to_string(), "".to_string()], ", "), "a, b, ");
}

#[test]
fn characters_there_and_back() {
    let chars = to_chars("añ🧠");
    assert_eq!(chars, vec!['a', 'ñ', '🧠']);
    assert_eq!(from_chars(&chars, 1, 3), "ñ🧠");
    assert_eq!(from_chars(&chars, 2, 2), "");
}

#[test]
fn trimming() {
    assert_eq!(trim("  a b \n\t"), "a b");
    assert_eq!(trim(""), "");
    assert_eq!(trim(" \n "), "");
    assert_eq!(trim("\u{a0}x\u{3000}"), "x");
    let chars = to_chars(" ab ");
    assert_eq!(trimmed_span(&chars, 0, 4), (1, 3));
    assert_eq!(trimmed_span(&chars, 2, 4), (2, 3));
}

#[test]
fn white_space_is_what_unicode_lists() {
    let listed = |c: char| {
        matches!(
            c as u32,
            0x0009..=0x000d
                | 0x0020
                | 0x0085
                | 0x00a0
                | 0x1680
                | 0x2000..=0x200a
                | 0x2028
                | 0x2029
                | 0x202f
                | 0x205f
                | 0x3000
        )
    };
    let mut count = 0;
    for code in 0..=0x10ffffu32 {
        if let Some(c) = char::from_u32(code) {
            let alone = c.to_string();
            assert_eq!(trim(&alone).is_empty(), listed(c), "U+{:04X}", code);
            if listed(c) {
                count += 1;
            }
        }
    }
    assert_eq!(count, 25);
}
