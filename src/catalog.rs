use vstd::prelude::*;

use crate::language::{lang_code, opt_view, tesseract_code, Language};

verus! {

/// A concrete recognition backend, as far as language codes are concerned.
#[derive(Clone, Copy, Debug, PartialEq, Eq, Structural)]
pub enum Backend {
    /// The operating system's vision framework.
    Vision,
    /// The operating system's own text recognition service.
    WindowsMedia,
    /// The local open-source engine.
    Tesseract,
    /// A remote HTTP service.
    Remote,
}

/// The vision framework's locale code of a language, if it reads it.
pub open spec fn apple_code(l: Language) -> Option<Seq<char>> {
    match l {
        Language::English => Some("en-US"@),
        Language::Spanish => Some("es-ES"@),
        Language::French => Some("fr-FR"@),
        Language::German => Some("de-DE"@),
        Language::Italian => Some("it-IT"@),
        Language::Portuguese => Some("pt-BR"@),
        Language::Russian => Some("ru-RU"@),
        Language::Chinese => Some("zh-Hans"@),
        Language::Korean => Some("ko-KR"@),
        Language::Japanese => Some("ja-JP"@),
        Language::Ukrainian => Some("uk-UA"@),
        Language::Thai => Some("th-TH"@),
        Language::Arabic => Some("ar-SA"@),
        _ => None,
    }
}

/// The code that `b` uses for `l`, or `None` where `b` cannot read `l`.
/// The operating system's service picks its languages itself and takes none.
pub open spec fn native_code(b: Backend, l: Language) -> Option<Seq<char>> {
    match b {
        Backend::Vision => apple_code(l),
        Backend::WindowsMedia => None,
        Backend::Tesseract => tesseract_code(l),
        Backend::Remote => Some(lang_code(l)),
    }
}

/// The codes of `langs` in `b`'s vocabulary, in order, leaving out every
/// language that `b` has no code for.
pub open spec fn translated(b: Backend, langs: Seq<Language>) -> Seq<Seq<char>>
    decreases langs.len(),
{
    if langs.len() == 0 {
        Seq::empty()
    } else {
        let rest = translated(b, langs.drop_last());
        match native_code(b, langs.last()) {
            Some(c) => rest.push(c),
            None => rest,
        }
    }
}

/// The views of a sequence of strings.
pub open spec fn views(v: Seq<String>) -> Seq<Seq<char>> {
    v.map_values(|s: String| s@)
}

/// The vision framework's code of `l`.
pub fn apple_code_of(l: Language) -> (r: Option<&'static str>)
    ensures
        opt_view(r) == apple_code(l),
{
    match l {
        Language::English => Some("en-US"),
        Language::Spanish => Some("es-ES"),
        Language::French => Some("fr-FR"),
        Language::German => Some("de-DE"),
        Language::Italian => Some("it-IT"),
        Language::Portuguese => Some("pt-BR"),
        Language::Russian => Some("ru-RU"),
        Language::Chinese => Some("zh-Hans"),
        Language::Korean => Some("ko-KR"),
        Language::Japanese => Some("ja-JP"),
        Language::Ukrainian => Some("uk-UA"),
        Language::Thai => Some("th-TH"),
        Language::Arabic => Some("ar-SA"),
        _ => None,
    }
}

/// The code that `b` uses for `l`.
pub fn native_code_of(b: Backend, l: Language) -> (r: Option<&'static str>)
    ensures
        opt_view(r) == native_code(b, l),
{
    match b {
        Backend::Vision => apple_code_of(l),
        Backend::WindowsMedia => None,
        Backend::Tesseract => l.as_tesseract_code(),
        Backend::Remote => Some(l.as_lang_code()),
    }
}

/// Translates `languages` into `backend`'s vocabulary; languages that the
/// backend cannot read are dropped, the order of the others is kept.
pub fn translate(backend: Backend, languages: &[Language]) -> (r: Vec<String>)
    ensures
        views(r@) == translated(backend, languages@),
{
    let mut out: Vec<String> = Vec::new();
    let mut i: usize = 0;
    while i < languages.len()
        invariant
            i <= languages@.len(),
            views(out@) == translated(backend, languages@.subrange(0, i as int)),
        decreases languages@.len() - i,
    {
        let l = languages[i];
        assert(languages@.subrange(0, i + 1).drop_last() =~= languages@.subrange(0, i as int));
        match native_code_of(backend, l) {
            Some(c) => {
                out.push(c.to_owned());
            },
            None => {},
        }
        assert(views(out@) =~= translated(backend, languages@.subrange(0, i + 1)));
        i = i + 1;
    }
    assert(languages@.subrange(0, languages@.len() as int) =~= languages@);
    out
}

/// The vision framework's locale codes for `languages`, in order, without the
/// languages that it cannot read.
pub fn get_apple_languages(languages: &[Language]) -> (r: Vec<String>)
    ensures
        views(r@) == translated(Backend::Vision, languages@),
{
    translate(Backend::Vision, languages)
}

/// Translation never yields more codes than it was given languages.
pub proof fn translate_never_longer(b: Backend, langs: Seq<Language>)
    ensures
        translated(b, langs).len() <= langs.len(),
    decreases langs.len(),
{
    if langs.len() > 0 {
        translate_never_longer(b, langs.drop_last());
    }
}

/// Every language that a backend has a code for is kept: for the remote
/// service, which knows every language, translation keeps the length.
pub proof fn translate_remote_keeps_all(langs: Seq<Language>)
    ensures
        translated(Backend::Remote, langs).len() == langs.len(),
    decreases langs.len(),
{
    if langs.len() > 0 {
        translate_remote_keeps_all(langs.drop_last());
    }
}

} // verus!
