//! Picking the localized name of a place for a requested language.

use vstd::prelude::*;
use crate::geoip2::Names;
use crate::text::str_equals;

verus! {

/// The languages that MaxMind databases name places in.
#[derive(Clone, Copy, Debug, PartialEq, Eq)]
pub enum Language {
    German,
    English,
    Spanish,
    French,
    Japanese,
    BrazilianPortuguese,
    Russian,
    SimplifiedChinese,
}

/// The language that a language tag asks for, if it names one: the MaxMind
/// codes, with `en-US`/`en_US` for English, `pt_BR` for Brazilian Portuguese
/// and `zh_CN`/`zh` for Simplified Chinese.
pub open spec fn spec_language(tag: Seq<char>) -> Option<Language> {
    if tag == "de"@ {
        Some(Language::German)
    } else if tag == "en"@ || tag == "en-US"@ || tag == "en_US"@ {
        Some(Language::English)
    } else if tag == "es"@ {
        Some(Language::Spanish)
    } else if tag == "fr"@ {
        Some(Language::French)
    } else if tag == "ja"@ {
        Some(Language::Japanese)
    } else if tag == "pt-BR"@ || tag == "pt_BR"@ {
        Some(Language::BrazilianPortuguese)
    } else if tag == "ru"@ {
        Some(Language::Russian)
    } else if tag == "zh-CN"@ || tag == "zh_CN"@ || tag == "zh"@ {
        Some(Language::SimplifiedChinese)
    } else {
        None
    }
}

/// The language that the tag `tag` asks for, if it names one.
pub fn language(tag: &str) -> (r: Option<Language>)
    ensures
        r == spec_language(tag@),
{
    if str_equals(tag, "de") {
        Some(Language::German)
    } else if str_equals(tag, "en") || str_equals(tag, "en-US") || str_equals(tag, "en_US") {
        Some(Language::English)
    } else if str_equals(tag, "es") {
        Some(Language::Spanish)
    } else if str_equals(tag, "fr") {
        Some(Language::French)
    } else if str_equals(tag, "ja") {
        Some(Language::Japanese)
    } else if str_equals(tag, "pt-BR") || str_equals(tag, "pt_BR") {
        Some(Language::BrazilianPortuguese)
    } else if str_equals(tag, "ru") {
        Some(Language::Russian)
    } else if str_equals(tag, "zh-CN") || str_equals(tag, "zh_CN") || str_equals(tag, "zh") {
        Some(Language::SimplifiedChinese)
    } else {
        None
    }
}

/// The characters of an optional string.
pub open spec fn opt_chars(o: Option<String>) -> Option<Seq<char>> {
    match o {
        Some(s) => Some(s@),
        None => None,
    }
}

/// The name in language `l`.
pub open spec fn name_in(names: Names, l: Language) -> Option<String> {
    match l {
        Language::German => names.german,
        Language::English => names.english,
        Language::Spanish => names.spanish,
        Language::French => names.french,
        Language::Japanese => names.japanese,
        Language::BrazilianPortuguese => names.brazilian_portuguese,
        Language::Russian => names.russian,
        Language::SimplifiedChinese => names.simplified_chinese,
    }
}

/// The first name that is present, trying English, Simplified Chinese,
/// Japanese, Spanish, French, German, Russian and Brazilian Portuguese in
/// that order.
pub open spec fn fallback_name(names: Names) -> Option<String> {
    if names.english is Some {
        names.english
    } else if names.simplified_chinese is Some {
        names.simplified_chinese
    } else if names.japanese is Some {
        names.japanese
    } else if names.spanish is Some {
        names.spanish
    } else if names.french is Some {
        names.french
    } else if names.german is Some {
        names.german
    } else if names.russian is Some {
        names.russian
    } else {
        names.brazilian_portuguese
    }
}

/// The name shown for the language tag `tag`: the name in the language the
/// tag asks for where there is one, and the fallback name otherwise.
pub open spec fn spec_name_for_lang(names: Names, tag: Seq<char>) -> Option<String> {
    match spec_language(tag) {
        Some(l) if name_in(names, l) is Some => name_in(names, l),
        _ => fallback_name(names),
    }
}

fn clone_name(o: &Option<String>) -> (r: Option<String>)
    ensures
        opt_chars(r) == opt_chars(*o),
{
    match o {
        Some(s) => Some(s.clone()),
        None => None,
    }
}

fn name_in_language(names: &Names, l: Language) -> (r: Option<String>)
    ensures
        opt_chars(r) == opt_chars(name_in(*names, l)),
{
    match l {
        Language::German => clone_name(&names.german),
        Language::English => clone_name(&names.english),
        Language::Spanish => clone_name(&names.spanish),
        Language::French => clone_name(&names.french),
        Language::Japanese => clone_name(&names.japanese),
        Language::BrazilianPortuguese => clone_name(&names.brazilian_portuguese),
        Language::Russian => clone_name(&names.russian),
        Language::SimplifiedChinese => clone_name(&names.simplified_chinese),
    }
}

/// The name of a place to show for the language tag `tag`.
pub fn name_for_lang(names: &Names, tag: &str) -> (r: Option<String>)
    ensures
        opt_chars(r) == opt_chars(spec_name_for_lang(*names, tag@)),
{
    if let Some(l) = language(tag) {
        let preferred = name_in_language(names, l);
        if preferred.is_some() {
            return preferred;
        }
    }
    if names.english.is_some() {
        clone_name(&names.english)
    } else if names.simplified_chinese.is_some() {
        clone_name(&names.simplified_chinese)
    } else if names.japanese.is_some() {
        clone_name(&names.japanese)
    } else if names.spanish.is_some() {
        clone_name(&names.spanish)
    } else if names.french.is_some() {
        clone_name(&names.french)
    } else if names.german.is_some() {
        clone_name(&names.german)
    } else if names.russian.is_some() {
        clone_name(&names.russian)
    } else {
        clone_name(&names.brazilian_portuguese)
    }
}

/// The language that each language tag names, as far as the laws below
/// need it.
proof fn lemma_tags()
    ensures
        spec_language("en"@) == Some(Language::English),
        spec_language("en-US"@) == Some(Language::English),
        spec_language("en_US"@) == Some(Language::English),
        spec_language("pt-BR"@) == Some(Language::BrazilianPortuguese),
        spec_language("pt_BR"@) == Some(Language::BrazilianPortuguese),
        spec_language("zh-CN"@) == Some(Language::SimplifiedChinese),
        spec_language("zh_CN"@) == Some(Language::SimplifiedChinese),
        spec_language("zh"@) == Some(Language::SimplifiedChinese),
        spec_language("de"@) == Some(Language::German),
        spec_language("es"@) == Some(Language::Spanish),
        spec_language("fr"@) == Some(Language::French),
        spec_language("ja"@) == Some(Language::Japanese),
        spec_language("ru"@) == Some(Language::Russian),
{
    reveal_strlit("de");
    reveal_strlit("en");
    reveal_strlit("en-US");
    reveal_strlit("en_US");
    reveal_strlit("es");
    reveal_strlit("fr");
    reveal_strlit("ja");
    reveal_strlit("pt-BR");
    reveal_strlit("pt_BR");
    reveal_strlit("ru");
    reveal_strlit("zh-CN");
    reveal_strlit("zh_CN");
    reveal_strlit("zh");
    assert("de"@.len() == 2 && "de"@[0] == 'd' && "de"@[1] == 'e');
    assert("en"@.len() == 2 && "en"@[0] == 'e' && "en"@[1] == 'n');
    assert("en-US"@.len() == 5 && "en-US"@[0] == 'e' && "en-US"@[1] == 'n' && "en-US"@[2] == '-' && "en-US"@[3] == 'U' && "en-US"@[4] == 'S');
    assert("en_US"@.len() == 5 && "en_US"@[0] == 'e' && "en_US"@[1] == 'n' && "en_US"@[2] == '_' && "en_US"@[3] == 'U' && "en_US"@[4] == 'S');
    assert("es"@.len() == 2 && "es"@[0] == 'e' && "es"@[1] == 's');
    assert("fr"@.len() == 2 && "fr"@[0] == 'f' && "fr"@[1] == 'r');
    assert("ja"@.len() == 2 && "ja"@[0] == 'j' && "ja"@[1] == 'a');
    assert("pt-BR"@.len() == 5 && "pt-BR"@[0] == 'p' && "pt-BR"@[1] == 't' && "pt-BR"@[2] == '-' && "pt-BR"@[3] == 'B' && "pt-BR"@[4] == 'R');
    assert("pt_BR"@.len() == 5 && "pt_BR"@[0] == 'p' && "pt_BR"@[1] == 't' && "pt_BR"@[2] == '_' && "pt_BR"@[3] == 'B' && "pt_BR"@[4] == 'R');
    assert("ru"@.len() == 2 && "ru"@[0] == 'r' && "ru"@[1] == 'u');
    assert("zh-CN"@.len() == 5 && "zh-CN"@[0] == 'z' && "zh-CN"@[1] == 'h' && "zh-CN"@[2] == '-' && "zh-CN"@[3] == 'C' && "zh-CN"@[4] == 'N');
    assert("zh_CN"@.len() == 5 && "zh_CN"@[0] == 'z' && "zh_CN"@[1] == 'h' && "zh_CN"@[2] == '_' && "zh_CN"@[3] == 'C' && "zh_CN"@[4] == 'N');
    assert("zh"@.len() == 2 && "zh"@[0] == 'z' && "zh"@[1] == 'h');
}

/// A language tag that names no language gives the same name as English.
pub proof fn law_unknown_language_is_english(names: Names, tag: Seq<char>)
    requires
        spec_language(tag) is None,
    ensures
        spec_name_for_lang(names, tag) == spec_name_for_lang(names, "en"@),
{
    lemma_tags();
}

/// The alternative spellings of a language tag give the same name as the
/// MaxMind code: `en-US` and `en_US` as `en`, `pt_BR` as `pt-BR`, `zh_CN`
/// and `zh` as `zh-CN`.
pub proof fn law_tag_aliases(names: Names)
    ensures
        spec_name_for_lang(names, "en-US"@) == spec_name_for_lang(names, "en"@),
        spec_name_for_lang(names, "en_US"@) == spec_name_for_lang(names, "en"@),
        spec_name_for_lang(names, "pt_BR"@) == spec_name_for_lang(names, "pt-BR"@),
        spec_name_for_lang(names, "zh_CN"@) == spec_name_for_lang(names, "zh-CN"@),
        spec_name_for_lang(names, "zh"@) == spec_name_for_lang(names, "zh-CN"@),
{
    lemma_tags();
}

/// Whatever the tag, a name is shown exactly when the place has a name in
/// some language, and the name shown is one of the place's names.
pub proof fn law_name_shown_iff_any(names: Names, tag: Seq<char>)
    ensures
        spec_name_for_lang(names, tag) is Some <==> (exists|l: Language| name_in(names, l) is Some),
        spec_name_for_lang(names, tag) matches Some(s) ==> (exists|l: Language|
            name_in(names, l) == Some(s)),
{
    if names.english is Some {
        assert(name_in(names, Language::English) is Some);
    }
    if let Some(s) = spec_name_for_lang(names, tag) {
        if let Some(l) = spec_language(tag) {
            if name_in(names, l) is Some {
                assert(name_in(names, l) == Some(s));
            }
        }
        if names.english == Some(s) { assert(name_in(names, Language::English) == Some(s)); }
        if names.simplified_chinese == Some(s) { assert(name_in(names, Language::SimplifiedChinese) == Some(s)); }
        if names.japanese == Some(s) { assert(name_in(names, Language::Japanese) == Some(s)); }
        if names.spanish == Some(s) { assert(name_in(names, Language::Spanish) == Some(s)); }
        if names.french == Some(s) { assert(name_in(names, Language::French) == Some(s)); }
        if names.german == Some(s) { assert(name_in(names, Language::German) == Some(s)); }
        if names.russian == Some(s) { assert(name_in(names, Language::Russian) == Some(s)); }
        if names.brazilian_portuguese == Some(s) { assert(name_in(names, Language::BrazilianPortuguese) == Some(s)); }
    }
}

/// MaxMind's code for the language `l`, the key of its name in a Lua
/// names table.
pub open spec fn language_code(l: Language) -> Seq<char> {
    match l {
        Language::German => "de"@,
        Language::English => "en"@,
        Language::Spanish => "es"@,
        Language::French => "fr"@,
        Language::Japanese => "ja"@,
        Language::BrazilianPortuguese => "pt-BR"@,
        Language::Russian => "ru"@,
        Language::SimplifiedChinese => "zh-CN"@,
    }
}

/// Each language's MaxMind code is a language tag that asks for that
/// language.
pub proof fn law_language_codes(l: Language)
    ensures
        spec_language(language_code(l)) == Some(l),
{
    lemma_tags();
}

} // verus!
