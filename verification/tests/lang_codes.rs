use ddtr::lang::{code_of, str_eq, str_to_lang, Lang};

#[test]
fn canonical_codes_round_trip() {
    let all = [
        Lang::Auto,
        Lang::Zh,
        Lang::En,
        Lang::Yue,
        Lang::Wyw,
        Lang::Jp,
        Lang::Kor,
        Lang::Fra,
        Lang::Spa,
        Lang::Th,
        Lang::Ara,
        Lang::Ru,
        Lang::Pt,
        Lang::De,
        Lang::It,
        Lang::El,
        Lang::Nl,
        Lang::Pl,
        Lang::Bul,
        Lang::Est,
        Lang::Dan,
        Lang::Fin,
        Lang::Cs,
        Lang::Rom,
        Lang::Slo,
        Lang::Swe,
        Lang::Hu,
        Lang::Cht,
        Lang::Vie,
    ];
    for lang in all {
        assert_eq!(str_to_lang(code_of(lang)), Ok(lang));
    }
}

#[test]
fn every_known_code_maps() {
    let cases: Vec<(&str, Lang)> = vec![
        ("auto", Lang::Auto),
        ("zh", Lang::Zh),
        ("en", Lang::En),
        ("yue", Lang::Yue),
        ("wyw", Lang::Wyw),
        ("ja", Lang::Jp),
        ("ko", Lang::Kor),
        ("fra", Lang::Fra),
        ("fr", Lang::Fra),
        ("spa", Lang::Spa),
        ("th", Lang::Th),
        ("ara", Lang::Ara),
        ("ar", Lang::Ara),
        ("ru", Lang::Ru),
        ("pt", Lang::Pt),
        ("de", Lang::De),
        ("it", Lang::It),
        ("el", Lang::El),
        ("nl", Lang::Nl),
        ("pl", Lang::Pl),
        ("bul", Lang::Bul),
        ("est", Lang::Est),
        ("dan", Lang::Dan),
        ("fin", Lang::Fin),
        ("cs", Lang::Cs),
        ("rom", Lang::Rom),
        ("slo", Lang::Slo),
        ("swe", Lang::Swe),
        ("hu", Lang::Hu),
        ("hk", Lang::Cht),
        ("vie", Lang::Vie),
    ];
    for (code, lang) in cases {
        assert_eq!(str_to_lang(code), Ok(lang), "code {}", code);
    }
}

#[test]
fn unknown_code_is_named_in_the_error() {
    let r = str_to_lang("jp");
    assert_eq!(r, Err(String::from("Unknown language code: jp")));
    let r = str_to_lang("");
    assert_eq!(r, Err(String::from("Unknown language code: ")));
    let r = str_to_lang("EN");
    assert_eq!(r, Err(String::from("Unknown language code: EN")));
}

#[test]
fn str_eq_decides_equality() {
    assert!(str_eq("", ""));
    assert!(str_eq("abc", "abc"));
    assert!(str_eq("你好", "你好"));
    assert!(!str_eq("abc", "abd"));
    assert!(!str_eq("abc", "ab"));
    assert!(!str_eq("", "a"));
}
