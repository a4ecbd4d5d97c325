//! Telling the language of a text.

use vstd::prelude::*;
use whichlang::Lang;
use crate::text::utf8_len;

verus! {

/// The longest text, in bytes, that is handed to the detector, which counts
/// up to three features for a byte in a 32-bit counter.
pub const MAX_DETECT_BYTES: usize = 0x5555_5555;

/// The languages that are told apart.
#[derive(Clone, Copy, PartialEq, Eq, Debug, Structural)]
pub enum Language {
    Arabic,
    Mandarin,
    German,
    English,
    French,
    Hindi,
    Italian,
    Japanese,
    Korean,
    Dutch,
    Portuguese,
    Russian,
    Spanish,
    Swedish,
    Turkish,
    Vietnamese,
}

/// The language that `whichlang` makes out in `text`.
pub uninterp spec fn detected_language(text: Seq<char>) -> Language;

/// `whichlang::detect_language`: the language of `text`, which depends on
/// the text alone. Its feature counter can overflow on a text of more than
/// `MAX_DETECT_BYTES` bytes, which `requires` rules out.
#[verifier::external_body]
fn detect(text: &str) -> (r: Language)
    requires
        utf8_len(text@) <= MAX_DETECT_BYTES,
    ensures
        r == detected_language(text@),
{
    match whichlang::detect_language(text) {
        Lang::Ara => Language::Arabic, Lang::Cmn => Language::Mandarin,
        Lang::Deu => Language::German, Lang::Eng => Language::English,
        Lang::Fra => Language::French, Lang::Hin => Language::Hindi,
        Lang::Ita => Language::Italian, Lang::Jpn => Language::Japanese,
        Lang::Kor => Language::Korean, Lang::Nld => Language::Dutch,
        Lang::Por => Language::Portuguese, Lang::Rus => Language::Russian,
        Lang::Spa => Language::Spanish, Lang::Swe => Language::Swedish,
        Lang::Tur => Language::Turkish, Lang::Vie => Language::Vietnamese,
    }
}

impl Language {
    /// The code by which the translator knows the language.
    pub open spec fn code_of(self) -> Seq<char> {
        match self {
            Language::Arabic => "ar"@,
            Language::Mandarin => "zh_cn"@,
            Language::German => "de"@,
            Language::English => "en"@,
            Language::French => "fr"@,
            Language::Hindi => "hi"@,
            Language::Italian => "it"@,
            Language::Japanese => "ja"@,
            Language::Korean => "ko"@,
            Language::Dutch => "nl"@,
            Language::Portuguese => "pt_pt"@,
            Language::Russian => "ru"@,
            Language::Spanish => "es"@,
            Language::Swedish => "sv"@,
            Language::Turkish => "tr"@,
            Language::Vietnamese => "vi"@,
        }
    }

    pub fn code(&self) -> (r: &'static str)
        ensures
            r@ == self.code_of(),
    {
        match self {
            Language::Arabic => "ar",
            Language::Mandarin => "zh_cn",
            Language::German => "de",
            Language::English => "en",
            Language::French => "fr",
            Language::Hindi => "hi",
            Language::Italian => "it",
            Language::Japanese => "ja",
            Language::Korean => "ko",
            Language::Dutch => "nl",
            Language::Portuguese => "pt_pt",
            Language::Russian => "ru",
            Language::Spanish => "es",
            Language::Swedish => "sv",
            Language::Turkish => "tr",
            Language::Vietnamese => "vi",
        }
    }
}

/// The translator's code for the language of `text`.
pub fn lang_detect(text: &str) -> (r: Result<&'static str, ()>)
    requires
        utf8_len(text@) <= MAX_DETECT_BYTES,
    ensures
        r matches Ok(code) && code@ == detected_language(text@).code_of(),
{
    Ok(detect(text).code())
}

} // verus!
