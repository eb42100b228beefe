//! Text-recognition language selection: the supported languages, their
//! model file names, and the mapping from configuration values and system
//! locales.

use vstd::prelude::*;

use vstd::string::StrSliceExecFns;

use crate::strings::{lowered, spec_lowered, str_eq};

verus! {

/// A failure in the recognition pipeline.
#[derive(Debug, Clone)]
pub enum OcrError {
    EngineInit { message: String },
    ImageConversion { message: String },
    Recognition { message: String },
    InvalidRegion { message: String },
}

/// The supported recognition languages; each maps to one recognition model
/// and character-set file in the model directory.
#[derive(Clone, Copy, Debug, PartialEq, Eq, Structural)]
pub enum OcrLanguage {
    Korean,
    English,
    Chinese,
    Latin,
    Cyrillic,
    Arabic,
    Thai,
    Greek,
    Devanagari,
    Tamil,
    Telugu,
}

impl OcrLanguage {
    /// The recognition-model file for this language.
    pub fn rec_model_filename(self) -> (r: &'static str)
        ensures
            self is Korean ==> r@ == "korean_PP-OCRv5_mobile_rec_infer.mnn"@,
            self is English ==> r@ == "en_PP-OCRv5_mobile_rec_infer.mnn"@,
            self is Chinese ==> r@ == "PP-OCRv5_mobile_rec.mnn"@,
            self is Latin ==> r@ == "latin_PP-OCRv5_mobile_rec_infer.mnn"@,
            self is Cyrillic ==> r@ == "cyrillic_PP-OCRv5_mobile_rec_infer.mnn"@,
            self is Arabic ==> r@ == "arabic_PP-OCRv5_mobile_rec_infer.mnn"@,
            self is Thai ==> r@ == "th_PP-OCRv5_mobile_rec_infer.mnn"@,
            self is Greek ==> r@ == "el_PP-OCRv5_mobile_rec_infer.mnn"@,
            self is Devanagari ==> r@ == "devanagari_PP-OCRv5_mobile_rec_infer.mnn"@,
            self is Tamil ==> r@ == "ta_PP-OCRv5_mobile_rec_infer.mnn"@,
            self is Telugu ==> r@ == "te_PP-OCRv5_mobile_rec_infer.mnn"@,
    {
        match self {
            OcrLanguage::Korean => "korean_PP-OCRv5_mobile_rec_infer.mnn",
            OcrLanguage::English => "en_PP-OCRv5_mobile_rec_infer.mnn",
            OcrLanguage::Chinese => "PP-OCRv5_mobile_rec.mnn",
            OcrLanguage::Latin => "latin_PP-OCRv5_mobile_rec_infer.mnn",
            OcrLanguage::Cyrillic => "cyrillic_PP-OCRv5_mobile_rec_infer.mnn",
            OcrLanguage::Arabic => "arabic_PP-OCRv5_mobile_rec_infer.mnn",
            OcrLanguage::Thai => "th_PP-OCRv5_mobile_rec_infer.mnn",
            OcrLanguage::Greek => "el_PP-OCRv5_mobile_rec_infer.mnn",
            OcrLanguage::Devanagari => "devanagari_PP-OCRv5_mobile_rec_infer.mnn",
            OcrLanguage::Tamil => "ta_PP-OCRv5_mobile_rec_infer.mnn",
            OcrLanguage::Telugu => "te_PP-OCRv5_mobile_rec_infer.mnn",
        }
    }

    /// The character-set file for this language.
    pub fn keys_filename(self) -> (r: &'static str)
        ensures
            self is Korean ==> r@ == "ppocr_keys_korean.txt"@,
            self is English ==> r@ == "ppocr_keys_en.txt"@,
            self is Chinese ==> r@ == "ppocr_keys_v5.txt"@,
            self is Latin ==> r@ == "ppocr_keys_latin.txt"@,
            self is Cyrillic ==> r@ == "ppocr_keys_cyrillic.txt"@,
            self is Arabic ==> r@ == "ppocr_keys_arabic.txt"@,
            self is Thai ==> r@ == "ppocr_keys_th.txt"@,
            self is Greek ==> r@ == "ppocr_keys_el.txt"@,
            self is Devanagari ==> r@ == "ppocr_keys_devanagari.txt"@,
            self is Tamil ==> r@ == "ppocr_keys_ta.txt"@,
            self is Telugu ==> r@ == "ppocr_keys_te.txt"@,
    {
        match self {
            OcrLanguage::Korean => "ppocr_keys_korean.txt",
            OcrLanguage::English => "ppocr_keys_en.txt",
            OcrLanguage::Chinese => "ppocr_keys_v5.txt",
            OcrLanguage::Latin => "ppocr_keys_latin.txt",
            OcrLanguage::Cyrillic => "ppocr_keys_cyrillic.txt",
            OcrLanguage::Arabic => "ppocr_keys_arabic.txt",
            OcrLanguage::Thai => "ppocr_keys_th.txt",
            OcrLanguage::Greek => "ppocr_keys_el.txt",
            OcrLanguage::Devanagari => "ppocr_keys_devanagari.txt",
            OcrLanguage::Tamil => "ppocr_keys_ta.txt",
            OcrLanguage::Telugu => "ppocr_keys_te.txt",
        }
    }

    /// The human-readable language name.
    pub fn display_name(self) -> (r: &'static str)
        ensures
            self is Korean ==> r@ == "Korean"@,
            self is English ==> r@ == "English"@,
            self is Chinese ==> r@ == "Chinese"@,
            self is Latin ==> r@ == "Latin"@,
            self is Cyrillic ==> r@ == "Cyrillic"@,
            self is Arabic ==> r@ == "Arabic"@,
            self is Thai ==> r@ == "Thai"@,
            self is Greek ==> r@ == "Greek"@,
            self is Devanagari ==> r@ == "Devanagari"@,
            self is Tamil ==> r@ == "Tamil"@,
            self is Telugu ==> r@ == "Telugu"@,
    {
        match self {
            OcrLanguage::Korean => "Korean",
            OcrLanguage::English => "English",
            OcrLanguage::Chinese => "Chinese",
            OcrLanguage::Latin => "Latin",
            OcrLanguage::Cyrillic => "Cyrillic",
            OcrLanguage::Arabic => "Arabic",
            OcrLanguage::Thai => "Thai",
            OcrLanguage::Greek => "Greek",
            OcrLanguage::Devanagari => "Devanagari",
            OcrLanguage::Tamil => "Tamil",
            OcrLanguage::Telugu => "Telugu",
        }
    }

    /// The configuration string of this language.
    pub fn as_str(self) -> (r: &'static str)
        ensures
            self is Korean ==> r@ == "korean"@,
            self is English ==> r@ == "en"@,
            self is Chinese ==> r@ == "chinese"@,
            self is Latin ==> r@ == "latin"@,
            self is Cyrillic ==> r@ == "cyrillic"@,
            self is Arabic ==> r@ == "arabic"@,
            self is Thai ==> r@ == "th"@,
            self is Greek ==> r@ == "el"@,
            self is Devanagari ==> r@ == "devanagari"@,
            self is Tamil ==> r@ == "ta"@,
            self is Telugu ==> r@ == "te"@,
    {
        match self {
            OcrLanguage::Korean => "korean",
            OcrLanguage::English => "en",
            OcrLanguage::Chinese => "chinese",
            OcrLanguage::Latin => "latin",
            OcrLanguage::Cyrillic => "cyrillic",
            OcrLanguage::Arabic => "arabic",
            OcrLanguage::Thai => "th",
            OcrLanguage::Greek => "el",
            OcrLanguage::Devanagari => "devanagari",
            OcrLanguage::Tamil => "ta",
            OcrLanguage::Telugu => "te",
        }
    }
}

/// The language a configuration value names, case-insensitively; `None` for
/// anything unrecognised.
pub open spec fn spec_parse_ocr_language(s: Seq<char>) -> Option<OcrLanguage> {
    let t = spec_lowered(s);
    if t == "korean"@ || t == "ko"@ {
        Some(OcrLanguage::Korean)
    } else if t == "en"@ || t == "english"@ {
        Some(OcrLanguage::English)
    } else if t == "chinese"@ || t == "zh"@ || t == "ch"@ {
        Some(OcrLanguage::Chinese)
    } else if t == "latin"@ {
        Some(OcrLanguage::Latin)
    } else if t == "cyrillic"@ || t == "ru"@ {
        Some(OcrLanguage::Cyrillic)
    } else if t == "arabic"@ || t == "ar"@ {
        Some(OcrLanguage::Arabic)
    } else if t == "th"@ || t == "thai"@ {
        Some(OcrLanguage::Thai)
    } else if t == "el"@ || t == "greek"@ {
        Some(OcrLanguage::Greek)
    } else if t == "devanagari"@ || t == "hi"@ {
        Some(OcrLanguage::Devanagari)
    } else if t == "ta"@ || t == "tamil"@ {
        Some(OcrLanguage::Tamil)
    } else if t == "te"@ || t == "telugu"@ {
        Some(OcrLanguage::Telugu)
    } else {
        None
    }
}

pub fn parse_ocr_language(value: &str) -> (r: Option<OcrLanguage>)
    ensures
        r == spec_parse_ocr_language(value@),
{
    let lower = lowered(value);
    let t = lower.as_str();
    if str_eq(t, "korean") || str_eq(t, "ko") {
        Some(OcrLanguage::Korean)
    } else if str_eq(t, "en") || str_eq(t, "english") {
        Some(OcrLanguage::English)
    } else if str_eq(t, "chinese") || str_eq(t, "zh") || str_eq(t, "ch") {
        Some(OcrLanguage::Chinese)
    } else if str_eq(t, "latin") {
        Some(OcrLanguage::Latin)
    } else if str_eq(t, "cyrillic") || str_eq(t, "ru") {
        Some(OcrLanguage::Cyrillic)
    } else if str_eq(t, "arabic") || str_eq(t, "ar") {
        Some(OcrLanguage::Arabic)
    } else if str_eq(t, "th") || str_eq(t, "thai") {
        Some(OcrLanguage::Thai)
    } else if str_eq(t, "el") || str_eq(t, "greek") {
        Some(OcrLanguage::Greek)
    } else if str_eq(t, "devanagari") || str_eq(t, "hi") {
        Some(OcrLanguage::Devanagari)
    } else if str_eq(t, "ta") || str_eq(t, "tamil") {
        Some(OcrLanguage::Tamil)
    } else if str_eq(t, "te") || str_eq(t, "telugu") {
        Some(OcrLanguage::Telugu)
    } else {
        None
    }
}

/// The index of the first `_` in `s`, or `s.len()` when there is none.
pub open spec fn spec_find_underscore(s: Seq<char>) -> int
    decreases s.len(),
{
    if s.len() == 0 {
        0
    } else if s[0] == '_' {
        0
    } else {
        1 + spec_find_underscore(s.drop_first())
    }
}

proof fn lemma_find_underscore(s: Seq<char>)
    ensures
        0 <= spec_find_underscore(s) <= s.len(),
        spec_find_underscore(s) < s.len() ==> s[spec_find_underscore(s)] == '_',
        forall|j: int| 0 <= j < spec_find_underscore(s) ==> s[j] != '_',
    decreases s.len(),
{
    if s.len() > 0 && s[0] != '_' {
        let t = s.drop_first();
        lemma_find_underscore(t);
        let f = spec_find_underscore(s);
        if f < s.len() {
            assert(t[f - 1] == s[f]);
        }
        assert forall|j: int| 0 <= j < f implies s[j] != '_' by {
            if j > 0 {
                assert(t[j - 1] == s[j]);
            }
        }
    }
}

/// The locale's language prefix: everything before the first `_`.
pub open spec fn spec_locale_prefix(s: Seq<char>) -> Seq<char> {
    s.subrange(0, spec_find_underscore(s))
}

/// The recognition language for a system locale string such as `ko_KR.UTF-8`:
/// decided by its language prefix, with English as the fallback.
pub open spec fn spec_language_for_locale(lang: Seq<char>) -> OcrLanguage {
    let p = spec_locale_prefix(lang);
    if p == "ko"@ {
        OcrLanguage::Korean
    } else if p == "zh"@ {
        OcrLanguage::Chinese
    } else if p == "ru"@ || p == "uk"@ || p == "be"@ {
        OcrLanguage::Cyrillic
    } else if p == "ar"@ {
        OcrLanguage::Arabic
    } else if p == "th"@ {
        OcrLanguage::Thai
    } else if p == "el"@ {
        OcrLanguage::Greek
    } else if p == "hi"@ || p == "mr"@ || p == "ne"@ {
        OcrLanguage::Devanagari
    } else if p == "ta"@ {
        OcrLanguage::Tamil
    } else if p == "te"@ {
        OcrLanguage::Telugu
    } else {
        OcrLanguage::English
    }
}

pub fn ocr_language_for_locale(lang: &str) -> (r: OcrLanguage)
    ensures
        r == spec_language_for_locale(lang@),
{
    proof {
        lemma_find_underscore(lang@);
    }
    let n = lang.unicode_len();
    let mut i: usize = 0;
    while i < n && lang.get_char(i) != '_'
        invariant
            i <= n,
            n == lang@.len(),
            forall|j: int| 0 <= j < i ==> lang@[j] != '_',
        decreases n - i,
    {
        i += 1;
    }
    proof {
        lemma_find_underscore_min(lang@, i as int);
        assert(spec_find_underscore(lang@) == i);
    }
    let prefix = lang.substring_char(0, i);
    let p = prefix;
    if str_eq(p, "ko") {
        OcrLanguage::Korean
    } else if str_eq(p, "zh") {
        OcrLanguage::Chinese
    } else if str_eq(p, "ru") || str_eq(p, "uk") || str_eq(p, "be") {
        OcrLanguage::Cyrillic
    } else if str_eq(p, "ar") {
        OcrLanguage::Arabic
    } else if str_eq(p, "th") {
        OcrLanguage::Thai
    } else if str_eq(p, "el") {
        OcrLanguage::Greek
    } else if str_eq(p, "hi") || str_eq(p, "mr") || str_eq(p, "ne") {
        OcrLanguage::Devanagari
    } else if str_eq(p, "ta") {
        OcrLanguage::Tamil
    } else if str_eq(p, "te") {
        OcrLanguage::Telugu
    } else {
        OcrLanguage::English
    }
}

proof fn lemma_find_underscore_min(s: Seq<char>, k: int)
    requires
        0 <= k <= s.len(),
        forall|j: int| 0 <= j < k ==> s[j] != '_',
    ensures
        k <= spec_find_underscore(s),
    decreases k,
{
    if k > 0 {
        let t = s.drop_first();
        assert forall|j: int| 0 <= j < k - 1 implies t[j] != '_' by {
            assert(t[j] == s[j + 1]);
        }
        lemma_find_underscore_min(t, k - 1);
        assert(spec_find_underscore(s) == 1 + spec_find_underscore(t));
    } else {
        lemma_find_underscore(s);
    }
}

/// The effective recognition language: the configured value when it parses,
/// otherwise the system-detected language.
pub fn resolve_ocr_language(config_value: Option<&str>, system_language: OcrLanguage) -> (r:
    OcrLanguage)
    ensures
        r == match config_value {
            Some(v) => match spec_parse_ocr_language(v@) {
                Some(l) => l,
                None => system_language,
            },
            None => system_language,
        },
{
    match config_value {
        Some(v) => match parse_ocr_language(v) {
            Some(l) => l,
            None => system_language,
        },
        None => system_language,
    }
}

} // verus!
