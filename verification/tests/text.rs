use ogage::text::{char_is_space, chars_of, find, is_text, trim};

fn chars(s: &str) -> Vec<char> {
    s.chars().collect()
}

#[test]
fn chars_of_keeps_every_character() {
    assert_eq!(chars_of(""), Vec::<char>::new());
    assert_eq!(chars_of("a=b"), vec!['a', '=', 'b']);
    assert_eq!(chars_of("é\u{3000}✓\n"), vec!['é', '\u{3000}', '✓', '\n']);
}

#[test]
fn char_is_space_is_the_white_space_property() {
    for c in [
        '\t', '\n', '\u{b}', '\u{c}', '\r', ' ', '\u{85}', '\u{a0}', '\u{1680}', '\u{2000}',
        '\u{2005}', '\u{200a}', '\u{2028}', '\u{2029}', '\u{202f}', '\u{205f}', '\u{3000}',
    ] {
        assert!(char_is_space(c), "{:?}", c);
    }
    for c in [
        '\u{0}', '\u{8}', '\u{e}', '\u{1f}', '!', '#', '=', 'a', '\u{84}', '\u{86}', '\u{9f}',
        '\u{a1}', '\u{167f}', '\u{1681}', '\u{180e}', '\u{1fff}', '\u{200b}', '\u{2027}',
        '\u{202a}', '\u{202e}', '\u{2030}', '\u{205e}', '\u{2060}', '\u{2fff}', '\u{3001}',
        '\u{feff}', '\u{10ffff}',
    ] {
        assert!(!char_is_space(c), "{:?}", c);
    }
}

#[test]
fn char_is_space_agrees_with_std_on_every_character() {
    let mut c = '\u{0}';
    loop {
        assert_eq!(char_is_space(c), c.is_whitespace(), "{:?}", c);
        if c == char::MAX {
            break;
        }
        c = match char::from_u32(c as u32 + 1) {
            Some(next) => next,
            None => '\u{e000}',
        };
    }
}

#[test]
fn trim_removes_white_space_at_both_ends_only() {
    assert_eq!(trim(&chars("")), chars(""));
    assert_eq!(trim(&chars("   ")), chars(""));
    assert_eq!(trim(&chars("\t\r\n")), chars(""));
    assert_eq!(trim(&chars("x")), chars("x"));
    assert_eq!(trim(&chars("  x")), chars("x"));
    assert_eq!(trim(&chars("x  ")), chars("x"));
    assert_eq!(trim(&chars(" a b \t c \r")), chars("a b \t c"));
    assert_eq!(trim(&chars("\u{a0}\u{3000}k = v\u{2003}\u{85}")), chars("k = v"));
    assert_eq!(trim(&chars("\u{200b}x\u{200b}")), chars("\u{200b}x\u{200b}"));
}

#[test]
fn trim_agrees_with_std() {
    for s in [
        "",
        " ",
        "a",
        " a",
        "a ",
        "  VOL_UP = BTN_TL2  ",
        "\r\n\tx y\u{2028}",
        "\u{1680}\u{180e}z\u{205f}",
        "# comment \u{a0}",
        "=\u{3000}",
    ] {
        assert_eq!(trim(&chars(s)), chars(s.trim()), "{:?}", s);
    }
}

#[test]
fn find_gives_the_first_position_or_the_length() {
    assert_eq!(find(&chars(""), '='), 0);
    assert_eq!(find(&chars("abc"), '='), 3);
    assert_eq!(find(&chars("=abc"), '='), 0);
    assert_eq!(find(&chars("a=b=c"), '='), 1);
    assert_eq!(find(&chars("abc="), '='), 3);
    assert_eq!(find(&chars("é✓=x"), '='), 2);
    assert_eq!(find(&chars("a\nb\n"), '\n'), 1);
}

#[test]
fn is_text_compares_letter_by_letter() {
    assert!(is_text(&chars(""), ""));
    assert!(is_text(&chars("HOTKEY"), "HOTKEY"));
    assert!(!is_text(&chars("HOTKEY"), "HOTKEZ"));
    assert!(!is_text(&chars("HOTKEY"), "HOTKE"));
    assert!(!is_text(&chars("HOTKE"), "HOTKEY"));
    assert!(!is_text(&chars("hotkey"), "HOTKEY"));
    assert!(is_text(&chars("é✓"), "é✓"));
    assert!(!is_text(&chars("e✓"), "é✓"));
}
