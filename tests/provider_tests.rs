use ocr_engine::{resolve, Backend, Capabilities, Credentials, OcrError, OcrProvider};

fn none() -> Capabilities {
    Capabilities { vision: false, windows_media: false }
}

#[test]
fn auto_without_native_frameworks_is_local_engine() {
    assert_eq!(resolve(&OcrProvider::Auto, none()), Ok(Backend::Tesseract));
}

#[test]
fn auto_prefers_vision_then_windows() {
    let both = Capabilities { vision: true, windows_media: true };
    assert_eq!(resolve(&OcrProvider::Auto, both), Ok(Backend::Vision));
    let win = Capabilities { vision: false, windows_media: true };
    assert_eq!(resolve(&OcrProvider::Auto, win), Ok(Backend::WindowsMedia));
}

#[test]
fn explicit_native_backend_missing_is_unsupported() {
    assert_eq!(resolve(&OcrProvider::MacOS, none()), Err(OcrError::UnsupportedPlatform));
    assert_eq!(resolve(&OcrProvider::Windows, none()), Err(OcrError::UnsupportedPlatform));
    let mac = Capabilities { vision: true, windows_media: false };
    assert_eq!(resolve(&OcrProvider::MacOS, mac), Ok(Backend::Vision));
    assert_eq!(resolve(&OcrProvider::Tesseract, none()), Ok(Backend::Tesseract));
}

#[test]
fn custom_needs_an_endpoint() {
    let ok = OcrProvider::Custom { credentials: Credentials::default() };
    assert_eq!(resolve(&ok, none()), Ok(Backend::Remote));
    let empty = Credentials { api_url: String::new(), api_key: "k".to_string(), timeout_ms: 10 };
    let bad = OcrProvider::Custom { credentials: empty };
    assert_eq!(resolve(&bad, none()), Err(OcrError::BackendUnavailable));
}

#[test]
fn default_credentials() {
    let c = Credentials::default();
    assert_eq!(c.api_url, "http://localhost:8000/ocr");
    assert_eq!(c.api_key, "");
    assert_eq!(c.timeout_ms, 5000);
}
