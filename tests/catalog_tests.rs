use ocr_engine::{get_apple_languages, translate, Backend, Language};

#[test]
fn lang_codes_are_canonical() {
    assert_eq!(Language::English.as_lang_code(), "en");
    assert_eq!(Language::Chinese.as_lang_code(), "zh");
    assert_eq!(Language::Javanese.as_lang_code(), "jw");
    assert_eq!(Language::English.code_string(), "en".to_string());
}

#[test]
fn tesseract_codes() {
    assert_eq!(Language::English.as_tesseract_code(), Some("eng"));
    assert_eq!(Language::Chinese.as_tesseract_code(), Some("chi_sim"));
    assert_eq!(Language::Luxembourgish.as_tesseract_code(), Some("lb"));
}

#[test]
fn language_compares_with_code() {
    assert!(Language::French.eq_code("fr"));
    assert!(!Language::French.eq_code("de"));
    assert!(!Language::French.eq_code(""));
}

#[test]
fn apple_languages_drop_unsupported_and_keep_order() {
    let langs = vec![Language::Latin, Language::French, Language::Welsh, Language::Chinese];
    let codes = get_apple_languages(&langs);
    assert_eq!(codes, vec!["fr-FR".to_string(), "zh-Hans".to_string()]);
}

#[test]
fn apple_languages_of_empty_input() {
    let codes = get_apple_languages(&[]);
    assert!(codes.is_empty());
}

#[test]
fn translate_never_longer_than_input() {
    let langs = vec![
        Language::English,
        Language::Hausa,
        Language::Thai,
        Language::Arabic,
        Language::Faroese,
    ];
    for b in [Backend::Vision, Backend::WindowsMedia, Backend::Tesseract, Backend::Remote] {
        assert!(translate(b, &langs).len() <= langs.len());
    }
    assert_eq!(translate(Backend::Vision, &langs), vec!["en-US", "th-TH", "ar-SA"]);
    assert!(translate(Backend::WindowsMedia, &langs).is_empty());
}

#[test]
fn translate_tesseract_and_remote() {
    let langs = vec![Language::German, Language::Japanese];
    assert_eq!(translate(Backend::Tesseract, &langs), vec!["deu", "jpn"]);
    assert_eq!(translate(Backend::Remote, &langs), vec!["de", "ja"]);
}
