use theme::text::{blank, equals_ignore_ascii_case, to_ascii_lower, white_space};

#[test]
fn white_space_agrees_with_std_on_every_char() {
    let mut code: u32 = 0;
    while code <= 0x10FFFF {
        if let Some(c) = char::from_u32(code) {
            assert_eq!(white_space(c), c.is_whitespace(), "at {:#x}", code);
        }
        code += 1;
    }
}

#[test]
fn to_ascii_lower_agrees_with_std_on_every_char() {
    let mut code: u32 = 0;
    while code <= 0x10FFFF {
        if let Some(c) = char::from_u32(code) {
            assert_eq!(to_ascii_lower(c), c.to_ascii_lowercase(), "at {:#x}", code);
        }
        code += 1;
    }
}

#[test]
fn to_ascii_lower_edges() {
    assert_eq!(to_ascii_lower('A'), 'a');
    assert_eq!(to_ascii_lower('Z'), 'z');
    assert_eq!(to_ascii_lower('a'), 'a');
    assert_eq!(to_ascii_lower('z'), 'z');
    assert_eq!(to_ascii_lower('@'), '@');
    assert_eq!(to_ascii_lower('['), '[');
    assert_eq!(to_ascii_lower('#'), '#');
    assert_eq!(to_ascii_lower('\u{c9}'), '\u{c9}');
    assert_eq!(to_ascii_lower('\u{212a}'), '\u{212a}');
}

#[test]
fn blank_strings() {
    assert!(blank(""));
    assert!(blank(" "));
    assert!(blank("   "));
    assert!(blank("\t\n\r"));
    assert!(blank("\u{a0}\u{3000}\u{2028}"));
    assert!(!blank("a"));
    assert!(!blank(" a "));
    assert!(!blank("  ."));
    assert!(!blank("\u{200b}"));
}

#[test]
fn blank_agrees_with_trim() {
    let samples = ["", " ", "\t", "x", " x", "x ", "\u{85}", "\u{1680}\u{2000}", "\u{180e}", "-"];
    for s in samples {
        assert_eq!(blank(s), s.trim().is_empty(), "on {:?}", s);
    }
}

#[test]
fn equality_up_to_ascii_case() {
    assert!(equals_ignore_ascii_case("", ""));
    assert!(equals_ignore_ascii_case("light", "light"));
    assert!(equals_ignore_ascii_case("LIGHT", "light"));
    assert!(equals_ignore_ascii_case("light", "LiGhT"));
    assert!(equals_ignore_ascii_case("#FFFFFF", "#ffffff"));
    assert!(!equals_ignore_ascii_case("light", "lights"));
    assert!(!equals_ignore_ascii_case("lights", "light"));
    assert!(!equals_ignore_ascii_case("light", "might"));
    assert!(!equals_ignore_ascii_case("", "a"));
    assert!(!equals_ignore_ascii_case("dar\u{212a}", "dark"));
    assert!(!equals_ignore_ascii_case("\u{c9}", "\u{e9}"));
}

#[test]
fn equality_up_to_ascii_case_agrees_with_std() {
    let samples = ["", "a", "A", "ab", "aB", "Ab", "ba", "#fff", "#FFF", "\u{e9}", "\u{c9}", "z", "["];
    for a in samples {
        for b in samples {
            assert_eq!(equals_ignore_ascii_case(a, b), a.eq_ignore_ascii_case(b), "on {:?} {:?}", a, b);
        }
    }
}
