use localization::ids::{LangId, LocId};
use localization::select::{init, loc, match_tag, Localization, LANG_MAP, LANG_MAP_LEN};

#[test]
fn empty_preferences_select_the_base_language() {
    let l = init(&[]);
    assert_eq!(l.language(), LangId::en);
    assert_eq!(loc(&l, LocId::Okay), "Ok");
    assert_eq!(loc(&l, LocId::FileSave), "Save");
    assert_eq!(loc(&l, LocId::Shift), "Shift");
}

#[test]
fn default_is_the_base_language() {
    let l = Localization::default();
    assert_eq!(l.language(), LangId::en);
    assert_eq!(loc(&l, LocId::Cancel), "Cancel");
}

#[test]
fn specific_prefix_goes_before_the_broad_one() {
    let l = init(&["zh-hant"]);
    assert_eq!(l.language(), LangId::zh_hant);
    assert_eq!(loc(&l, LocId::Okay), "確定");
    assert_ne!(loc(&l, LocId::Okay), "确定");
}

#[test]
fn chinese_tags() {
    assert_eq!(init(&["zh-Hant-TW"]).language(), LangId::zh_hant);
    assert_eq!(init(&["zh-TW"]).language(), LangId::zh_hant);
    assert_eq!(init(&["zh"]).language(), LangId::zh_hans);
    assert_eq!(init(&["zh-CN"]).language(), LangId::zh_hans);
    assert_eq!(init(&["zh-sg"]).language(), LangId::zh_hans);
    assert_eq!(init(&["zh-Hans"]).language(), LangId::zh_hans);
    assert_eq!(init(&["zh-HK"]).language(), LangId::zh_hans);
    assert_eq!(loc(&init(&["zh-sg"]), LocId::Okay), "确定");
}

#[test]
fn case_of_the_tag_does_not_matter() {
    let upper = init(&["DE-at"]);
    let lower = init(&["de-AT"]);
    assert_eq!(upper.language(), lower.language());
    assert_eq!(upper.language(), LangId::de);
    assert_eq!(init(&["PT-BR"]).language(), LangId::pt_br);
    assert_eq!(init(&["Pt-bR"]).language(), LangId::pt_br);
    assert_eq!(init(&["ZH-HANT"]).language(), LangId::zh_hant);
    assert_eq!(init(&["JA"]).language(), LangId::ja);
    assert_eq!(init(&["FR", "Ja", "XX"]).language(), init(&["fr", "jA", "xx"]).language());
    assert_eq!(init(&["Ko", "zH-tW"]).language(), init(&["kO", "Zh-Tw"]).language());
}

#[test]
fn last_matching_tag_decides() {
    let l = init(&["fr", "ja"]);
    assert_eq!(l.language(), LangId::ja);
    assert_eq!(loc(&l, LocId::Yes), "はい");
    assert_eq!(init(&["ja", "fr"]).language(), LangId::fr);
    assert_eq!(init(&["de", "es", "it"]).language(), LangId::it);
}

#[test]
fn unmatched_tags_do_not_change_the_selection() {
    assert_eq!(init(&["fr", "xx"]).language(), LangId::fr);
    assert_eq!(init(&["xx", "fr"]).language(), LangId::fr);
    assert_eq!(init(&["xx", "fr", "yy", "", "q"]).language(), LangId::fr);
    assert_eq!(init(&["ko", "tlh", "ru", "xx"]).language(), LangId::ru);
}

#[test]
fn unknown_tag_selects_the_base_language() {
    let l = init(&["xx-unknown"]);
    assert_eq!(l.language(), LangId::en);
    assert_eq!(loc(&l, LocId::Okay), "Ok");
    assert_eq!(init(&["xx", "yy", "nl-NL"]).language(), LangId::en);
}

#[test]
fn portuguese_then_english() {
    // English is the last tag that asks for a language, so it decides.
    let l = init(&["pt-BR", "en"]);
    assert_eq!(l.language(), LangId::en);
    assert_eq!(loc(&l, LocId::Okay), "Ok");
    assert_eq!(loc(&l, LocId::FileSave), "Save");
}

#[test]
fn english_then_portuguese() {
    let l = init(&["en", "pt-BR"]);
    assert_eq!(l.language(), LangId::pt_br);
    assert_eq!(loc(&l, LocId::Okay), "OK");
    assert_eq!(loc(&l, LocId::FileSave), "Salvar");
}

#[test]
fn portuguese_alone() {
    let l = init(&["pt-BR"]);
    assert_eq!(l.language(), LangId::pt_br);
    assert_eq!(loc(&l, LocId::Okay), "OK");
    assert_eq!(loc(&l, LocId::FileSave), "Salvar");
}

#[test]
fn portuguese_needs_the_region() {
    assert_eq!(match_tag("pt"), None);
    assert_eq!(match_tag("pt-PT"), None);
    assert_eq!(match_tag("pt_BR"), None);
    assert_eq!(match_tag("pt-b"), None);
    assert_eq!(match_tag("pt-br"), Some(LangId::pt_br));
    assert_eq!(match_tag("pt-BR.UTF-8"), Some(LangId::pt_br));
}

#[test]
fn each_prefix_asks_for_its_language() {
    let expected = [
        ("en", LangId::en),
        ("de", LangId::de),
        ("es", LangId::es),
        ("fr", LangId::fr),
        ("it", LangId::it),
        ("ja", LangId::ja),
        ("ko", LangId::ko),
        ("pt-br", LangId::pt_br),
        ("ru", LangId::ru),
        ("zh-hant", LangId::zh_hant),
        ("zh-tw", LangId::zh_hant),
        ("zh", LangId::zh_hans),
        ("vi", LangId::vi),
    ];
    assert_eq!(LANG_MAP_LEN, 13);
    assert_eq!(LANG_MAP.len(), LANG_MAP_LEN);
    for (k, (prefix, lang)) in expected.iter().enumerate() {
        assert_eq!(LANG_MAP[k], (*prefix, *lang));
        assert_eq!(match_tag(prefix), Some(*lang));
        assert_eq!(match_tag(&prefix.to_uppercase()), Some(*lang));
        assert_eq!(init(&[*prefix]).language(), *lang);
    }
}

#[test]
fn tags_with_regions() {
    assert_eq!(match_tag("en-US"), Some(LangId::en));
    assert_eq!(match_tag("en_GB"), Some(LangId::en));
    assert_eq!(match_tag("es-419"), Some(LangId::es));
    assert_eq!(match_tag("fr-CA"), Some(LangId::fr));
    assert_eq!(match_tag("ko-KR"), Some(LangId::ko));
    assert_eq!(match_tag("vi-VN"), Some(LangId::vi));
    assert_eq!(match_tag("ru-RU"), Some(LangId::ru));
}

#[test]
fn match_is_on_the_prefix_only() {
    // Nothing but the leading bytes is looked at.
    assert_eq!(match_tag("english"), Some(LangId::en));
    assert_eq!(match_tag("item"), Some(LangId::it));
    assert_eq!(match_tag("x-en"), None);
    assert_eq!(match_tag(" en"), None);
}

#[test]
fn tags_that_ask_for_nothing() {
    assert_eq!(match_tag(""), None);
    assert_eq!(match_tag("e"), None);
    assert_eq!(match_tag("z"), None);
    assert_eq!(match_tag("xx-unknown"), None);
    assert_eq!(match_tag("nl"), None);
    assert_eq!(match_tag("日本語"), None);
    assert_eq!(match_tag("é"), None);
    assert_eq!(match_tag("C"), None);
    assert_eq!(match_tag("POSIX"), None);
}

#[test]
fn bytes_outside_ascii_are_not_folded() {
    // U+212A, the Kelvin sign, is no ASCII letter: it does not stand for `k`.
    assert_eq!(match_tag("\u{212a}o"), None);
    assert_eq!(match_tag("ja-日本"), Some(LangId::ja));
}

#[test]
fn accessor_twice_gives_the_same_text() {
    let l = init(&["ko"]);
    let a = loc(&l, LocId::HelpAbout);
    let b = loc(&l, LocId::HelpAbout);
    assert_eq!(a, b);
    assert_eq!(a.as_ptr(), b.as_ptr());
}

#[test]
fn selection_is_a_value_that_can_be_copied() {
    let l = init(&["it"]);
    let m = l;
    assert_eq!(l.language(), m.language());
    assert_eq!(loc(&l, LocId::Shift), "Maiusc");
    assert_eq!(loc(&m, LocId::Shift), "Maiusc");
}
