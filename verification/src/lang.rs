//! The closed set of language codes the pipeline accepts.
//!
//! Every code that appears in the configuration (target list or default
//! language) must denote a member of this set; an unknown code is a
//! configuration error, raised before any translation is attempted.

use vstd::prelude::*;
use vstd::string::*;

verus! {

/// A language understood by the external translation service, including
/// automatic source-language detection.
#[derive(Clone, Copy, PartialEq, Eq, Structural, Debug)]
pub enum Lang {
    Auto,
    Zh,
    En,
    Yue,
    Wyw,
    Jp,
    Kor,
    Fra,
    Spa,
    Th,
    Ara,
    Ru,
    Pt,
    De,
    It,
    El,
    Nl,
    Pl,
    Bul,
    Est,
    Dan,
    Fin,
    Cs,
    Rom,
    Slo,
    Swe,
    Hu,
    Cht,
    Vie,
}

/// The language a configuration string denotes, or `None` for a string
/// outside the closed set.
pub open spec fn lang_of_code(s: Seq<char>) -> Option<Lang> {
    if s == "auto"@ {
        Some(Lang::Auto)
    } else if s == "zh"@ {
        Some(Lang::Zh)
    } else if s == "en"@ {
        Some(Lang::En)
    } else if s == "yue"@ {
        Some(Lang::Yue)
    } else if s == "wyw"@ {
        Some(Lang::Wyw)
    } else if s == "ja"@ {
        Some(Lang::Jp)
    } else if s == "ko"@ {
        Some(Lang::Kor)
    } else if s == "fra"@ {
        Some(Lang::Fra)
    } else if s == "fr"@ {
        Some(Lang::Fra)
    } else if s == "spa"@ {
        Some(Lang::Spa)
    } else if s == "th"@ {
        Some(Lang::Th)
    } else if s == "ara"@ {
        Some(Lang::Ara)
    } else if s == "ar"@ {
        Some(Lang::Ara)
    } else if s == "ru"@ {
        Some(Lang::Ru)
    } else if s == "pt"@ {
        Some(Lang::Pt)
    } else if s == "de"@ {
        Some(Lang::De)
    } else if s == "it"@ {
        Some(Lang::It)
    } else if s == "el"@ {
        Some(Lang::El)
    } else if s == "nl"@ {
        Some(Lang::Nl)
    } else if s == "pl"@ {
        Some(Lang::Pl)
    } else if s == "bul"@ {
        Some(Lang::Bul)
    } else if s == "est"@ {
        Some(Lang::Est)
    } else if s == "dan"@ {
        Some(Lang::Dan)
    } else if s == "fin"@ {
        Some(Lang::Fin)
    } else if s == "cs"@ {
        Some(Lang::Cs)
    } else if s == "rom"@ {
        Some(Lang::Rom)
    } else if s == "slo"@ {
        Some(Lang::Slo)
    } else if s == "swe"@ {
        Some(Lang::Swe)
    } else if s == "hu"@ {
        Some(Lang::Hu)
    } else if s == "hk"@ {
        Some(Lang::Cht)
    } else if s == "vie"@ {
        Some(Lang::Vie)
    } else {
        None
    }
}

/// The canonical configuration string of each language: the encoding is
/// stable, and decoding a canonical code yields the language back.
pub open spec fn spec_code_of(l: Lang) -> Seq<char> {
    match l {
        Lang::Auto => "auto"@,
        Lang::Zh => "zh"@,
        Lang::En => "en"@,
        Lang::Yue => "yue"@,
        Lang::Wyw => "wyw"@,
        Lang::Jp => "ja"@,
        Lang::Kor => "ko"@,
        Lang::Fra => "fra"@,
        Lang::Spa => "spa"@,
        Lang::Th => "th"@,
        Lang::Ara => "ara"@,
        Lang::Ru => "ru"@,
        Lang::Pt => "pt"@,
        Lang::De => "de"@,
        Lang::It => "it"@,
        Lang::El => "el"@,
        Lang::Nl => "nl"@,
        Lang::Pl => "pl"@,
        Lang::Bul => "bul"@,
        Lang::Est => "est"@,
        Lang::Dan => "dan"@,
        Lang::Fin => "fin"@,
        Lang::Cs => "cs"@,
        Lang::Rom => "rom"@,
        Lang::Slo => "slo"@,
        Lang::Swe => "swe"@,
        Lang::Hu => "hu"@,
        Lang::Cht => "hk"@,
        Lang::Vie => "vie"@,
    }
}

/// The canonical configuration string of a language.
pub fn code_of(l: Lang) -> (r: &'static str)
    ensures
        r@ == spec_code_of(l),
{
    match l {
        Lang::Auto => "auto",
        Lang::Zh => "zh",
        Lang::En => "en",
        Lang::Yue => "yue",
        Lang::Wyw => "wyw",
        Lang::Jp => "ja",
        Lang::Kor => "ko",
        Lang::Fra => "fra",
        Lang::Spa => "spa",
        Lang::Th => "th",
        Lang::Ara => "ara",
        Lang::Ru => "ru",
        Lang::Pt => "pt",
        Lang::De => "de",
        Lang::It => "it",
        Lang::El => "el",
        Lang::Nl => "nl",
        Lang::Pl => "pl",
        Lang::Bul => "bul",
        Lang::Est => "est",
        Lang::Dan => "dan",
        Lang::Fin => "fin",
        Lang::Cs => "cs",
        Lang::Rom => "rom",
        Lang::Slo => "slo",
        Lang::Swe => "swe",
        Lang::Hu => "hu",
        Lang::Cht => "hk",
        Lang::Vie => "vie",
    }
}

/// Round-trip law: the canonical code of every language decodes to that very
/// language, so the encoding is injective and the closed set accepts each of
/// its own codes.
pub proof fn lemma_code_round_trips(l: Lang)
    ensures
        lang_of_code(spec_code_of(l)) == Some(l),
{
    reveal_strlit("auto");
    reveal_strlit("zh");
    reveal_strlit("en");
    reveal_strlit("yue");
    reveal_strlit("wyw");
    reveal_strlit("ja");
    reveal_strlit("ko");
    reveal_strlit("fra");
    reveal_strlit("fr");
    reveal_strlit("spa");
    reveal_strlit("th");
    reveal_strlit("ara");
    reveal_strlit("ar");
    reveal_strlit("ru");
    reveal_strlit("pt");
    reveal_strlit("de");
    reveal_strlit("it");
    reveal_strlit("el");
    reveal_strlit("nl");
    reveal_strlit("pl");
    reveal_strlit("bul");
    reveal_strlit("est");
    reveal_strlit("dan");
    reveal_strlit("fin");
    reveal_strlit("cs");
    reveal_strlit("rom");
    reveal_strlit("slo");
    reveal_strlit("swe");
    reveal_strlit("hu");
    reveal_strlit("hk");
    reveal_strlit("vie");
    assert("auto"@.len() == 4);
    assert("auto"@[0] == 'a');
    assert("auto"@[1] == 'u');
    assert("zh"@.len() == 2);
    assert("zh"@[0] == 'z');
    assert("zh"@[1] == 'h');
    assert("en"@.len() == 2);
    assert("en"@[0] == 'e');
    assert("en"@[1] == 'n');
    assert("yue"@.len() == 3);
    assert("yue"@[0] == 'y');
    assert("yue"@[1] == 'u');
    assert("wyw"@.len() == 3);
    assert("wyw"@[0] == 'w');
    assert("wyw"@[1] == 'y');
    assert("ja"@.len() == 2);
    assert("ja"@[0] == 'j');
    assert("ja"@[1] == 'a');
    assert("ko"@.len() == 2);
    assert("ko"@[0] == 'k');
    assert("ko"@[1] == 'o');
    assert("fra"@.len() == 3);
    assert("fra"@[0] == 'f');
    assert("fra"@[1] == 'r');
    assert("fr"@.len() == 2);
    assert("fr"@[0] == 'f');
    assert("fr"@[1] == 'r');
    assert("spa"@.len() == 3);
    assert("spa"@[0] == 's');
    assert("spa"@[1] == 'p');
    assert("th"@.len() == 2);
    assert("th"@[0] == 't');
    assert("th"@[1] == 'h');
    assert("ara"@.len() == 3);
    assert("ara"@[0] == 'a');
    assert("ara"@[1] == 'r');
    assert("ar"@.len() == 2);
    assert("ar"@[0] == 'a');
    assert("ar"@[1] == 'r');
    assert("ru"@.len() == 2);
    assert("ru"@[0] == 'r');
    assert("ru"@[1] == 'u');
    assert("pt"@.len() == 2);
    assert("pt"@[0] == 'p');
    assert("pt"@[1] == 't');
    assert("de"@.len() == 2);
    assert("de"@[0] == 'd');
    assert("de"@[1] == 'e');
    assert("it"@.len() == 2);
    assert("it"@[0] == 'i');
    assert("it"@[1] == 't');
    assert("el"@.len() == 2);
    assert("el"@[0] == 'e');
    assert("el"@[1] == 'l');
    assert("nl"@.len() == 2);
    assert("nl"@[0] == 'n');
    assert("nl"@[1] == 'l');
    assert("pl"@.len() == 2);
    assert("pl"@[0] == 'p');
    assert("pl"@[1] == 'l');
    assert("bul"@.len() == 3);
    assert("bul"@[0] == 'b');
    assert("bul"@[1] == 'u');
    assert("est"@.len() == 3);
    assert("est"@[0] == 'e');
    assert("est"@[1] == 's');
    assert("dan"@.len() == 3);
    assert("dan"@[0] == 'd');
    assert("dan"@[1] == 'a');
    assert("fin"@.len() == 3);
    assert("fin"@[0] == 'f');
    assert("fin"@[1] == 'i');
    assert("cs"@.len() == 2);
    assert("cs"@[0] == 'c');
    assert("cs"@[1] == 's');
    assert("rom"@.len() == 3);
    assert("rom"@[0] == 'r');
    assert("rom"@[1] == 'o');
    assert("slo"@.len() == 3);
    assert("slo"@[0] == 's');
    assert("slo"@[1] == 'l');
    assert("swe"@.len() == 3);
    assert("swe"@[0] == 's');
    assert("swe"@[1] == 'w');
    assert("hu"@.len() == 2);
    assert("hu"@[0] == 'h');
    assert("hu"@[1] == 'u');
    assert("hk"@.len() == 2);
    assert("hk"@[0] == 'h');
    assert("hk"@[1] == 'k');
    assert("vie"@.len() == 3);
    assert("vie"@[0] == 'v');
    assert("vie"@[1] == 'i');
}

/// String equality, decided character by character.
pub fn str_eq(a: &str, b: &str) -> (r: bool)
    ensures
        r == (a@ == b@),
{
    let la = a.unicode_len();
    let lb = b.unicode_len();
    if la != lb {
        return false;
    }
    let mut i: usize = 0;
    while i < la
        invariant
            la as nat == a@.len(),
            lb as nat == b@.len(),
            la == lb,
            i <= la,
            forall|j: int| 0 <= j < i ==> a@[j] == b@[j],
        decreases la - i,
    {
        let ca = a.get_char(i);
        let cb = b.get_char(i);
        if ca != cb {
            return false;
        }
        i = i + 1;
    }
    proof {
        assert(a@ =~= b@);
    }
    true
}

/// Maps a raw configuration string to its language, or reports the offending
/// string in the error message when it lies outside the closed set.
pub fn str_to_lang(lang_str: &str) -> (r: Result<Lang, String>)
    ensures
        match r {
            Ok(l) => lang_of_code(lang_str@) == Some(l),
            Err(e) => lang_of_code(lang_str@) is None && e@ == "Unknown language code: "@
                + lang_str@,
        },
{
    if str_eq(lang_str, "auto") {
        Ok(Lang::Auto)
    } else if str_eq(lang_str, "zh") {
        Ok(Lang::Zh)
    } else if str_eq(lang_str, "en") {
        Ok(Lang::En)
    } else if str_eq(lang_str, "yue") {
        Ok(Lang::Yue)
    } else if str_eq(lang_str, "wyw") {
        Ok(Lang::Wyw)
    } else if str_eq(lang_str, "ja") {
        Ok(Lang::Jp)
    } else if str_eq(lang_str, "ko") {
        Ok(Lang::Kor)
    } else if str_eq(lang_str, "fra") {
        Ok(Lang::Fra)
    } else if str_eq(lang_str, "fr") {
        Ok(Lang::Fra)
    } else if str_eq(lang_str, "spa") {
        Ok(Lang::Spa)
    } else if str_eq(lang_str, "th") {
        Ok(Lang::Th)
    } else if str_eq(lang_str, "ara") {
        Ok(Lang::Ara)
    } else if str_eq(lang_str, "ar") {
        Ok(Lang::Ara)
    } else if str_eq(lang_str, "ru") {
        Ok(Lang::Ru)
    } else if str_eq(lang_str, "pt") {
        Ok(Lang::Pt)
    } else if str_eq(lang_str, "de") {
        Ok(Lang::De)
    } else if str_eq(lang_str, "it") {
        Ok(Lang::It)
    } else if str_eq(lang_str, "el") {
        Ok(Lang::El)
    } else if str_eq(lang_str, "nl") {
        Ok(Lang::Nl)
    } else if str_eq(lang_str, "pl") {
        Ok(Lang::Pl)
    } else if str_eq(lang_str, "bul") {
        Ok(Lang::Bul)
    } else if str_eq(lang_str, "est") {
        Ok(Lang::Est)
    } else if str_eq(lang_str, "dan") {
        Ok(Lang::Dan)
    } else if str_eq(lang_str, "fin") {
        Ok(Lang::Fin)
    } else if str_eq(lang_str, "cs") {
        Ok(Lang::Cs)
    } else if str_eq(lang_str, "rom") {
        Ok(Lang::Rom)
    } else if str_eq(lang_str, "slo") {
        Ok(Lang::Slo)
    } else if str_eq(lang_str, "swe") {
        Ok(Lang::Swe)
    } else if str_eq(lang_str, "hu") {
        Ok(Lang::Hu)
    } else if str_eq(lang_str, "hk") {
        Ok(Lang::Cht)
    } else if str_eq(lang_str, "vie") {
        Ok(Lang::Vie)
    } else {
        Err(String::from_str("Unknown language code: ").concat(lang_str))
    }
}

} // verus!
