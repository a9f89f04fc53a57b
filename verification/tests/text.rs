use easycompositing::text::{push_decimal, push_i32, push_u32, str_eq, trimmed_bounds, white_space};

#[test]
fn decimal_rendering_matches_display() {
    for n in [0u64, 7, 10, 99, 1000, u64::MAX] {
        let mut s = String::from("n=");
        push_decimal(&mut s, n);
        assert_eq!(s, format!("n={}", n));
    }
    for n in [0i32, -1, 42, i32::MIN, i32::MAX] {
        let mut s = String::new();
        push_i32(&mut s, n);
        assert_eq!(s, n.to_string());
    }
    let mut s = String::new();
    push_u32(&mut s, u32::MAX);
    assert_eq!(s, "4294967295");
}

#[test]
fn trimming_matches_str_trim() {
    for s in ["", "   ", " ok ", "\u{a0}x\u{2028}", "a b", "\n\tok\r\n", "\u{200b}ok"] {
        let chars: Vec<char> = s.chars().collect();
        let (start, end) = trimmed_bounds(s);
        let trimmed: String = chars[start..end].iter().collect();
        assert_eq!(trimmed, s.trim());
    }
}

#[test]
fn white_space_matches_char_is_whitespace() {
    for c in ['\t', '\n', ' ', '\u{85}', '\u{a0}', '\u{1680}', '\u{2000}', '\u{200a}', '\u{3000}', 'a', '\u{200b}', '\u{feff}'] {
        assert_eq!(white_space(c), c.is_whitespace());
    }
}

#[test]
fn string_helpers() {
    assert!(str_eq("wl_seat", "wl_seat"));
    assert!(!str_eq("wl_seat", "wl_sea"));
    assert!(!str_eq("ab", "ac"));
}
