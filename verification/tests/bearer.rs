use hbba::server::bearer::{chars_of, read_bearer, space, trim};

#[test]
fn chars_of_a_string() {
    assert_eq!(chars_of(""), Vec::<char>::new());
    assert_eq!(chars_of("a密b"), vec!['a', '密', 'b']);
}

#[test]
fn white_space_characters() {
    for c in [' ', '\t', '\n', '\u{b}', '\u{c}', '\r', '\u{85}', '\u{a0}', '\u{1680}', '\u{2000}',
        '\u{200a}', '\u{2028}', '\u{2029}', '\u{202f}', '\u{205f}', '\u{3000}']
    {
        assert!(space(c));
        assert!(c.is_whitespace());
    }
    for c in ['a', '0', '\u{8}', '\u{e}', '\u{200b}', '\u{1f}', '.', '\u{feff}'] {
        assert!(!space(c));
        assert!(!c.is_whitespace());
    }
}

#[test]
fn white_space_agrees_with_the_language_on_every_character() {
    let mut n: u32 = 0;
    while n <= 0x10ffff {
        if let Some(c) = char::from_u32(n) {
            assert_eq!(space(c), c.is_whitespace());
        }
        n += 1;
    }
}

#[test]
fn bearer_and_token() {
    assert_eq!(read_bearer("Bearer abc"), Some("abc"));
    assert_eq!(read_bearer("bearer abc"), Some("abc"));
    assert_eq!(read_bearer("BEARER abc"), Some("abc"));
    assert_eq!(read_bearer("bEaReR abc.def-ghi"), Some("abc.def-ghi"));
}

#[test]
fn white_space_around_the_words_does_not_count() {
    assert_eq!(read_bearer("  Bearer \t\t abc  "), Some("abc"));
    assert_eq!(read_bearer("Bearer\nabc"), Some("abc"));
    assert_eq!(read_bearer("Bearer\u{3000}abc"), Some("abc"));
}

#[test]
fn words_after_the_token_do_not_count() {
    assert_eq!(read_bearer("Bearer abc def"), Some("abc"));
}

#[test]
fn token_may_hold_any_characters_but_white_space() {
    assert_eq!(read_bearer("Bearer 密码=é"), Some("密码=é"));
}

#[test]
fn other_schemes_are_refused() {
    assert_eq!(read_bearer("Basic abc"), None);
    assert_eq!(read_bearer("Bearers abc"), None);
    assert_eq!(read_bearer("Beare abc"), None);
    assert_eq!(read_bearer("Bearer: abc"), None);
    assert_eq!(read_bearer("Beаrer abc"), None);
}

#[test]
fn missing_token_is_refused() {
    assert_eq!(read_bearer(""), None);
    assert_eq!(read_bearer("   "), None);
    assert_eq!(read_bearer("Bearer"), None);
    assert_eq!(read_bearer("Bearer   "), None);
    assert_eq!(read_bearer("abc"), None);
    assert_eq!(read_bearer("Bearerabc"), None);
}

#[test]
fn reading_agrees_with_splitting_and_lower_casing() {
    for h in ["Bearer x", " bearer  y z", "BeArEr\tq", "Token x", "", "bearer", "ＢＥＡＲＥＲ x", "K x"] {
        let mut words = h.split_whitespace();
        let expected = match words.next() {
            Some(first) if first.to_lowercase() == "bearer" => words.next(),
            _ => None,
        };
        assert_eq!(read_bearer(h), expected);
    }
}

#[test]
fn trimming_leaves_off_white_space_at_both_ends() {
    assert_eq!(trim("  key\n"), "key");
    assert_eq!(trim("key"), "key");
    assert_eq!(trim("\t a b \u{3000}"), "a b");
    assert_eq!(trim(""), "");
    assert_eq!(trim(" \n\t "), "");
    assert_eq!(trim("密 钥\r\n"), "密 钥");
    for text in ["", " ", " x", "x ", " x y ", "\u{85}z\u{2028}", "\u{200b} "] {
        assert_eq!(trim(text), text.trim());
    }
}
