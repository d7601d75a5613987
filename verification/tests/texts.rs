use system_recorder::text::{
    chars_of, joined, precedes, push_decimal, push_hex4, push_padded, text_of, trimmed, utf16_text,
    white,
};

fn decimal(n: u64) -> String {
    let mut s = String::new();
    push_decimal(&mut s, n);
    s
}

fn padded(n: u64, width: usize) -> String {
    let mut s = String::new();
    push_padded(&mut s, n, width);
    s
}

#[test]
fn decimal_notation_is_that_of_std() {
    for n in [0u64, 7, 10, 99, 100, 4711, u32::MAX as u64, u64::MAX] {
        assert_eq!(decimal(n), n.to_string());
    }
}

#[test]
fn padding_fills_with_zeros_and_cuts_nothing() {
    assert_eq!(padded(7, 2), "07");
    assert_eq!(padded(0, 2), "00");
    assert_eq!(padded(123, 2), "123");
    assert_eq!(padded(2023, 4), "2023");
    assert_eq!(padded(33, 4), "0033");
    assert_eq!(padded(5, 0), "5");
}

#[test]
fn hexadecimal_has_four_digits() {
    for n in [0u16, 1, 0x55, 0xabcd, 0xfffe, 0xffff] {
        let mut s = String::new();
        push_hex4(&mut s, n);
        assert_eq!(s, format!("{:04x}", n));
    }
}

#[test]
fn white_space_is_that_of_std() {
    for code in 0..=0x10_ffffu32 {
        if let Some(c) = char::from_u32(code) {
            assert_eq!(white(c), c.is_whitespace(), "{:x}", code);
        }
    }
}

#[test]
fn trimming_is_that_of_std() {
    for s in [
        "",
        " ",
        "\t\u{3000}\n",
        "D:\\录音",
        "  D:\\录音 \u{a0}",
        "a b",
        " a  b\u{2009}",
        "\u{200b}x\u{200b}",
    ] {
        assert_eq!(trimmed(s), s.trim());
    }
}

#[test]
fn texts_are_ordered_as_in_std() {
    let samples = ["", "a", "A", "ab", "b", "chrome.exe", "Chrome.exe", "音", "音乐", "\u{10000}", "\u{ffff}"];
    for a in samples {
        for b in samples {
            assert_eq!(precedes(a, b), a < b, "{} {}", a, b);
        }
    }
}

#[test]
fn characters_and_texts_convert() {
    let v = chars_of("录音a");
    assert_eq!(v, vec!['录', '音', 'a']);
    assert_eq!(text_of(&v, 1, 3), "音a");
    assert_eq!(text_of(&v, 2, 2), "");
    assert_eq!(joined("录", "音"), "录音");
}

#[test]
fn utf16_is_decoded_as_in_std() {
    let samples: Vec<Vec<u16>> = vec![
        vec![],
        "C:\\程序\\player.exe".encode_utf16().collect(),
        "🎵.exe".encode_utf16().collect(),
        vec![0xd83c],
        vec![0xdfb5, 0xd83c],
        vec![0xd83c, 0x41, 0xdfb5],
        vec![0xd83c, 0xd83c, 0xdfb5, 0xdfb5],
        vec![0xffff, 0xe000, 0xd7ff, 0],
    ];
    for units in samples {
        assert_eq!(utf16_text(&units, units.len()), String::from_utf16_lossy(&units));
    }
    let units: Vec<u16> = "abcdef".encode_utf16().collect();
    assert_eq!(utf16_text(&units, 2), "ab");
}
