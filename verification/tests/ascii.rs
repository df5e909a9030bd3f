use localization::ascii::{starts_with_ignore_ascii_case, to_ascii_lowercase};

#[test]
fn folds_capital_letters_only() {
    assert_eq!(to_ascii_lowercase(b'A'), b'a');
    assert_eq!(to_ascii_lowercase(b'Z'), b'z');
    assert_eq!(to_ascii_lowercase(b'M'), b'm');
    assert_eq!(to_ascii_lowercase(b'a'), b'a');
    assert_eq!(to_ascii_lowercase(b'z'), b'z');
    assert_eq!(to_ascii_lowercase(b'@'), b'@');
    assert_eq!(to_ascii_lowercase(b'['), b'[');
    assert_eq!(to_ascii_lowercase(b'-'), b'-');
    assert_eq!(to_ascii_lowercase(b'0'), b'0');
    assert_eq!(to_ascii_lowercase(0), 0);
    assert_eq!(to_ascii_lowercase(0xc4), 0xc4);
    assert_eq!(to_ascii_lowercase(0xff), 0xff);
}

#[test]
fn folds_every_byte_as_the_standard_library_does() {
    let mut b: u8 = 0;
    loop {
        assert_eq!(to_ascii_lowercase(b), b.to_ascii_lowercase());
        if b == u8::MAX {
            break;
        }
        b += 1;
    }
}

#[test]
fn prefix_test() {
    assert!(starts_with_ignore_ascii_case("en-US", "en"));
    assert!(starts_with_ignore_ascii_case("EN-US", "en"));
    assert!(starts_with_ignore_ascii_case("en-US", "EN"));
    assert!(starts_with_ignore_ascii_case("eN", "En"));
    assert!(starts_with_ignore_ascii_case("zh-Hant-TW", "zh-hant"));
    assert!(!starts_with_ignore_ascii_case("zh-Hans", "zh-hant"));
    assert!(!starts_with_ignore_ascii_case("de", "en"));
    assert!(!starts_with_ignore_ascii_case("e", "en"));
    assert!(!starts_with_ignore_ascii_case("", "en"));
    assert!(!starts_with_ignore_ascii_case("xen", "en"));
}

#[test]
fn every_string_starts_with_itself_and_with_nothing() {
    for s in ["", "a", "pt-BR", "日本語", "Ünïcödé"].iter() {
        assert!(starts_with_ignore_ascii_case(s, s));
        assert!(starts_with_ignore_ascii_case(s, ""));
    }
}

#[test]
fn prefix_may_end_inside_a_character() {
    // The comparison is on bytes, so a prefix of the bytes will do.
    assert!(starts_with_ignore_ascii_case("éa", "é"));
    assert!(!starts_with_ignore_ascii_case("é", "éa"));
    assert!(!starts_with_ignore_ascii_case("É", "é"));
    assert!(!starts_with_ignore_ascii_case("\u{212a}", "k"));
}

#[test]
fn prefix_test_agrees_with_the_standard_library() {
    let words = ["", "e", "en", "EN", "En-us", "pt", "pt-", "PT-BR", "zh", "ZH-tw", "zh-hant", "日本"];
    for s in words.iter() {
        for p in words.iter() {
            let expected = s.len() >= p.len()
                && s.as_bytes()[..p.len()].eq_ignore_ascii_case(p.as_bytes());
            assert_eq!(starts_with_ignore_ascii_case(s, p), expected, "{:?} {:?}", s, p);
        }
    }
}
