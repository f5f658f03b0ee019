use vstd::prelude::*;

verus! {

/// All the languages for Challenge names
#[derive(Debug, Clone, Copy, PartialEq, Eq, Structural)]
pub enum NameLang {
    /// English
    En,
    /// Spanish
    Es,
    /// French
    Fr,
    /// German
    De,
    /// Italian
    It,
    /// Japanese
    Jp,
    /// Arabic
    Ar,
    /// Chinese (simplified)
    ZhCh,
    /// Chinese (traditional)
    ZhTw,
    /// Dutch
    Nl,
    /// Korean
    Ko,
    /// Portuguese
    Pt,
    /// Russian
    Ru,
    /// Turkish
    Tr,
}

/// The short language code under which a challenge stores its name.
pub open spec fn lang_code(lang: NameLang) -> Seq<char> {
    match lang {
        NameLang::En => "en"@,
        NameLang::Es => "es"@,
        NameLang::Fr => "fr"@,
        NameLang::De => "de"@,
        NameLang::It => "it"@,
        NameLang::Jp => "jp"@,
        NameLang::Ar => "ar"@,
        NameLang::ZhCh => "zh-CN"@,
        NameLang::ZhTw => "zh-TW"@,
        NameLang::Nl => "nl"@,
        NameLang::Ko => "ko"@,
        NameLang::Pt => "pt"@,
        NameLang::Ru => "ru"@,
        NameLang::Tr => "tr"@,
    }
}

impl NameLang {
    /// The language's short code (`"en"`, `"zh-CN"`, ...).
    pub fn to_string(&self) -> (r: String)
        ensures
            r@ == lang_code(*self),
    {
        let s: &str = match self {
            NameLang::En => "en",
            NameLang::Es => "es",
            NameLang::Fr => "fr",
            NameLang::De => "de",
            NameLang::It => "it",
            NameLang::Jp => "jp",
            NameLang::Ar => "ar",
            NameLang::ZhCh => "zh-CN",
            NameLang::ZhTw => "zh-TW",
            NameLang::Nl => "nl",
            NameLang::Ko => "ko",
            NameLang::Pt => "pt",
            NameLang::Ru => "ru",
            NameLang::Tr => "tr",
        };
        String::from_str(s)
    }
}

} // verus!
