use vstd::prelude::*;

verus! {

/// A natural language that a recognition backend may be asked to read.
///
/// Each language has a canonical two-letter code and, where the local
/// engine can read it, a code of the local engine's own vocabulary.
#[derive(Clone, Copy, Debug, PartialEq, Eq, Hash, Structural)]
pub enum Language {
    English,
    Chinese,
    German,
    Spanish,
    Russian,
    Korean,
    French,
    Japanese,
    Portuguese,
    Turkish,
    Polish,
    Catalan,
    Dutch,
    Arabic,
    Swedish,
    Italian,
    Indonesian,
    Hindi,
    Finnish,
    Hebrew,
    Ukrainian,
    Greek,
    Malay,
    Czech,
    Romanian,
    Danish,
    Hungarian,
    Norwegian,
    Thai,
    Urdu,
    Croatian,
    Bulgarian,
    Lithuanian,
    Latin,
    Malayalam,
    Welsh,
    Slovak,
    Persian,
    Latvian,
    Bengali,
    Serbian,
    Azerbaijani,
    Slovenian,
    Estonian,
    Macedonian,
    Nepali,
    Mongolian,
    Bosnian,
    Kazakh,
    Albanian,
    Swahili,
    Galician,
    Marathi,
    Punjabi,
    Sinhala,
    Khmer,
    Afrikaans,
    Belarusian,
    Gujarati,
    Amharic,
    Yiddish,
    Lao,
    Uzbek,
    Faroese,
    Pashto,
    Maltese,
    Sanskrit,
    Luxembourgish,
    Myanmar,
    Tibetan,
    Tagalog,
    Assamese,
    Tatar,
    Hausa,
    Javanese,
}

/// The canonical code of a language.
pub open spec fn lang_code(l: Language) -> Seq<char> {
    match l {
        Language::English => "en"@,
        Language::Chinese => "zh"@,
        Language::German => "de"@,
        Language::Spanish => "es"@,
        Language::Russian => "ru"@,
        Language::Korean => "ko"@,
        Language::French => "fr"@,
        Language::Japanese => "ja"@,
        Language::Portuguese => "pt"@,
        Language::Turkish => "tr"@,
        Language::Polish => "pl"@,
        Language::Catalan => "ca"@,
        Language::Dutch => "nl"@,
        Language::Arabic => "ar"@,
        Language::Swedish => "sv"@,
        Language::Italian => "it"@,
        Language::Indonesian => "id"@,
        Language::Hindi => "hi"@,
        Language::Finnish => "fi"@,
        Language::Hebrew => "he"@,
        Language::Ukrainian => "uk"@,
        Language::Greek => "el"@,
        Language::Malay => "ms"@,
        Language::Czech => "cs"@,
        Language::Romanian => "ro"@,
        Language::Danish => "da"@,
        Language::Hungarian => "hu"@,
        Language::Norwegian => "no"@,
        Language::Thai => "th"@,
        Language::Urdu => "ur"@,
        Language::Croatian => "hr"@,
        Language::Bulgarian => "bg"@,
        Language::Lithuanian => "lt"@,
        Language::Latin => "la"@,
        Language::Malayalam => "ml"@,
        Language::Welsh => "cy"@,
        Language::Slovak => "sk"@,
        Language::Persian => "fa"@,
        Language::Latvian => "lv"@,
        Language::Bengali => "bn"@,
        Language::Serbian => "sr"@,
        Language::Azerbaijani => "az"@,
        Language::Slovenian => "sl"@,
        Language::Estonian => "et"@,
        Language::Macedonian => "mk"@,
        Language::Nepali => "ne"@,
        Language::Mongolian => "mn"@,
        Language::Bosnian => "bs"@,
        Language::Kazakh => "kk"@,
        Language::Albanian => "sq"@,
        Language::Swahili => "sw"@,
        Language::Galician => "gl"@,
        Language::Marathi => "mr"@,
        Language::Punjabi => "pa"@,
        Language::Sinhala => "si"@,
        Language::Khmer => "km"@,
        Language::Afrikaans => "af"@,
        Language::Belarusian => "be"@,
        Language::Gujarati => "gu"@,
        Language::Amharic => "am"@,
        Language::Yiddish => "yi"@,
        Language::Lao => "lo"@,
        Language::Uzbek => "uz"@,
        Language::Faroese => "fo"@,
        Language::Pashto => "ps"@,
        Language::Maltese => "mt"@,
        Language::Sanskrit => "sa"@,
        Language::Luxembourgish => "lb"@,
        Language::Myanmar => "my"@,
        Language::Tibetan => "bo"@,
        Language::Tagalog => "tl"@,
        Language::Assamese => "as"@,
        Language::Tatar => "tt"@,
        Language::Hausa => "ha"@,
        Language::Javanese => "jw"@,
    }
}

/// The local engine's code of a language, if it reads that language.
pub open spec fn tesseract_code(l: Language) -> Option<Seq<char>> {
    match l {
        Language::English => Some("eng"@),
        Language::Chinese => Some("chi_sim"@),
        Language::German => Some("deu"@),
        Language::Spanish => Some("spa"@),
        Language::Russian => Some("rus"@),
        Language::Korean => Some("kor"@),
        Language::French => Some("fra"@),
        Language::Japanese => Some("jpn"@),
        Language::Portuguese => Some("por"@),
        Language::Turkish => Some("tur"@),
        Language::Polish => Some("pol"@),
        Language::Catalan => Some("cat"@),
        Language::Dutch => Some("nld"@),
        Language::Arabic => Some("ara"@),
        Language::Swedish => Some("swe"@),
        Language::Italian => Some("ita"@),
        Language::Indonesian => Some("ind"@),
        Language::Hindi => Some("hin"@),
        Language::Finnish => Some("fin"@),
        Language::Hebrew => Some("heb"@),
        Language::Ukrainian => Some("ukr"@),
        Language::Greek => Some("ell"@),
        Language::Malay => Some("msa"@),
        Language::Czech => Some("ces"@),
        Language::Romanian => Some("ron"@),
        Language::Danish => Some("dan"@),
        Language::Hungarian => Some("hun"@),
        Language::Norwegian => Some("nor"@),
        Language::Thai => Some("tha"@),
        Language::Urdu => Some("urd"@),
        Language::Croatian => Some("hrv"@),
        Language::Bulgarian => Some("bul"@),
        Language::Lithuanian => Some("lit"@),
        Language::Latin => Some("lat"@),
        Language::Malayalam => Some("mal"@),
        Language::Welsh => Some("cym"@),
        Language::Slovak => Some("slk"@),
        Language::Persian => Some("fas"@),
        Language::Latvian => Some("lav"@),
        Language::Bengali => Some("ben"@),
        Language::Serbian => Some("srp"@),
        Language::Azerbaijani => Some("aze"@),
        Language::Slovenian => Some("slv"@),
        Language::Estonian => Some("est"@),
        Language::Macedonian => Some("mkd"@),
        Language::Nepali => Some("nep"@),
        Language::Mongolian => Some("mon"@),
        Language::Bosnian => Some("bos"@),
        Language::Kazakh => Some("kaz"@),
        Language::Albanian => Some("sqi"@),
        Language::Swahili => Some("swa"@),
        Language::Galician => Some("glg"@),
        Language::Marathi => Some("mar"@),
        Language::Punjabi => Some("pan"@),
        Language::Sinhala => Some("sin"@),
        Language::Khmer => Some("khm"@),
        Language::Afrikaans => Some("afr"@),
        Language::Belarusian => Some("bel"@),
        Language::Gujarati => Some("guj"@),
        Language::Amharic => Some("amh"@),
        Language::Yiddish => Some("yid"@),
        Language::Lao => Some("lao"@),
        Language::Uzbek => Some("uzb"@),
        Language::Faroese => Some("fo"@),
        Language::Pashto => Some("pus"@),
        Language::Maltese => Some("mlt"@),
        Language::Sanskrit => Some("san"@),
        Language::Luxembourgish => Some("lb"@),
        Language::Myanmar => Some("mya"@),
        Language::Tibetan => Some("bod"@),
        Language::Tagalog => Some("tgl"@),
        Language::Assamese => Some("asm"@),
        Language::Tatar => Some("tat"@),
        Language::Hausa => Some("hau"@),
        Language::Javanese => Some("jav"@),
    }
}

/// Views an optional static string as an optional character sequence.
pub open spec fn opt_view(o: Option<&'static str>) -> Option<Seq<char>> {
    match o {
        Some(s) => Some(s@),
        None => None,
    }
}

impl Language {
    /// The canonical code of this language.
    pub fn as_lang_code(&self) -> (r: &'static str)
        ensures
            r@ == lang_code(*self),
    {
        match self {
            Language::English => "en",
            Language::Chinese => "zh",
            Language::German => "de",
            Language::Spanish => "es",
            Language::Russian => "ru",
            Language::Korean => "ko",
            Language::French => "fr",
            Language::Japanese => "ja",
            Language::Portuguese => "pt",
            Language::Turkish => "tr",
            Language::Polish => "pl",
            Language::Catalan => "ca",
            Language::Dutch => "nl",
            Language::Arabic => "ar",
            Language::Swedish => "sv",
            Language::Italian => "it",
            Language::Indonesian => "id",
            Language::Hindi => "hi",
            Language::Finnish => "fi",
            Language::Hebrew => "he",
            Language::Ukrainian => "uk",
            Language::Greek => "el",
            Language::Malay => "ms",
            Language::Czech => "cs",
            Language::Romanian => "ro",
            Language::Danish => "da",
            Language::Hungarian => "hu",
            Language::Norwegian => "no",
            Language::Thai => "th",
            Language::Urdu => "ur",
            Language::Croatian => "hr",
            Language::Bulgarian => "bg",
            Language::Lithuanian => "lt",
            Language::Latin => "la",
            Language::Malayalam => "ml",
            Language::Welsh => "cy",
            Language::Slovak => "sk",
            Language::Persian => "fa",
            Language::Latvian => "lv",
            Language::Bengali => "bn",
            Language::Serbian => "sr",
            Language::Azerbaijani => "az",
            Language::Slovenian => "sl",
            Language::Estonian => "et",
            Language::Macedonian => "mk",
            Language::Nepali => "ne",
            Language::Mongolian => "mn",
            Language::Bosnian => "bs",
            Language::Kazakh => "kk",
            Language::Albanian => "sq",
            Language::Swahili => "sw",
            Language::Galician => "gl",
            Language::Marathi => "mr",
            Language::Punjabi => "pa",
            Language::Sinhala => "si",
            Language::Khmer => "km",
            Language::Afrikaans => "af",
            Language::Belarusian => "be",
            Language::Gujarati => "gu",
            Language::Amharic => "am",
            Language::Yiddish => "yi",
            Language::Lao => "lo",
            Language::Uzbek => "uz",
            Language::Faroese => "fo",
            Language::Pashto => "ps",
            Language::Maltese => "mt",
            Language::Sanskrit => "sa",
            Language::Luxembourgish => "lb",
            Language::Myanmar => "my",
            Language::Tibetan => "bo",
            Language::Tagalog => "tl",
            Language::Assamese => "as",
            Language::Tatar => "tt",
            Language::Hausa => "ha",
            Language::Javanese => "jw",
        }
    }

    /// The local engine's code of this language, or `None` where the engine
    /// cannot read it.
    pub fn as_tesseract_code(&self) -> (r: Option<&'static str>)
        ensures
            opt_view(r) == tesseract_code(*self),
    {
        match self {
            Language::English => Some("eng"),
            Language::Chinese => Some("chi_sim"),
            Language::German => Some("deu"),
            Language::Spanish => Some("spa"),
            Language::Russian => Some("rus"),
            Language::Korean => Some("kor"),
            Language::French => Some("fra"),
            Language::Japanese => Some("jpn"),
            Language::Portuguese => Some("por"),
            Language::Turkish => Some("tur"),
            Language::Polish => Some("pol"),
            Language::Catalan => Some("cat"),
            Language::Dutch => Some("nld"),
            Language::Arabic => Some("ara"),
            Language::Swedish => Some("swe"),
            Language::Italian => Some("ita"),
            Language::Indonesian => Some("ind"),
            Language::Hindi => Some("hin"),
            Language::Finnish => Some("fin"),
            Language::Hebrew => Some("heb"),
            Language::Ukrainian => Some("ukr"),
            Language::Greek => Some("ell"),
            Language::Malay => Some("msa"),
            Language::Czech => Some("ces"),
            Language::Romanian => Some("ron"),
            Language::Danish => Some("dan"),
            Language::Hungarian => Some("hun"),
            Language::Norwegian => Some("nor"),
            Language::Thai => Some("tha"),
            Language::Urdu => Some("urd"),
            Language::Croatian => Some("hrv"),
            Language::Bulgarian => Some("bul"),
            Language::Lithuanian => Some("lit"),
            Language::Latin => Some("lat"),
            Language::Malayalam => Some("mal"),
            Language::Welsh => Some("cym"),
            Language::Slovak => Some("slk"),
            Language::Persian => Some("fas"),
            Language::Latvian => Some("lav"),
            Language::Bengali => Some("ben"),
            Language::Serbian => Some("srp"),
            Language::Azerbaijani => Some("aze"),
            Language::Slovenian => Some("slv"),
            Language::Estonian => Some("est"),
            Language::Macedonian => Some("mkd"),
            Language::Nepali => Some("nep"),
            Language::Mongolian => Some("mon"),
            Language::Bosnian => Some("bos"),
            Language::Kazakh => Some("kaz"),
            Language::Albanian => Some("sqi"),
            Language::Swahili => Some("swa"),
            Language::Galician => Some("glg"),
            Language::Marathi => Some("mar"),
            Language::Punjabi => Some("pan"),
            Language::Sinhala => Some("sin"),
            Language::Khmer => Some("khm"),
            Language::Afrikaans => Some("afr"),
            Language::Belarusian => Some("bel"),
            Language::Gujarati => Some("guj"),
            Language::Amharic => Some("amh"),
            Language::Yiddish => Some("yid"),
            Language::Lao => Some("lao"),
            Language::Uzbek => Some("uzb"),
            Language::Faroese => Some("fo"),
            Language::Pashto => Some("pus"),
            Language::Maltese => Some("mlt"),
            Language::Sanskrit => Some("san"),
            Language::Luxembourgish => Some("lb"),
            Language::Myanmar => Some("mya"),
            Language::Tibetan => Some("bod"),
            Language::Tagalog => Some("tgl"),
            Language::Assamese => Some("asm"),
            Language::Tatar => Some("tat"),
            Language::Hausa => Some("hau"),
            Language::Javanese => Some("jav"),
        }
    }

    /// The canonical code as an owned string; this is how a language is
    /// displayed.
    pub fn code_string(&self) -> (r: String)
        ensures
            r@ == lang_code(*self),
    {
        self.as_lang_code().to_owned()
    }

    /// Whether `code` is this language's canonical code.
    pub fn eq_code(&self, code: &str) -> (r: bool)
        ensures
            r == (lang_code(*self) == code@),
    {
        let own = self.code_string();
        let other = code.to_owned();
        own == other
    }
}

} // verus!
