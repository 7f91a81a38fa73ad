use ocr_engine::{
    BackendOutcome, Backend, Capabilities, ConfidenceScale, Credentials, Language, NativeBox,
    NativeElement, NativeOutput, OcrEngine, OcrError, OcrOptions, OcrProvider,
};

fn elem(text: &str, confidence: u64) -> NativeElement {
    NativeElement {
        text: text.to_string(),
        confidence,
        bbox: NativeBox::Pixels { left: 0, top: 0, width: 1, height: 1 },
    }
}

fn three() -> NativeOutput {
    NativeOutput::Elements {
        elements: vec![elem("A", 900_000), elem("B", 200_000), elem("C", 500_000)],
        scale: ConfidenceScale::Unit,
        image_width: 10,
        image_height: 10,
    }
}

fn engine(threshold: u64) -> OcrEngine {
    let opts = OcrOptions::default().confidence_threshold(threshold);
    OcrEngine::new(OcrProvider::Tesseract).unwrap().with_options(opts)
}

#[test]
fn default_options() {
    let o = OcrOptions::default();
    assert_eq!(o.languages, vec![Language::English]);
    assert_eq!(o.confidence_threshold, 0);
    assert_eq!(o.timeout_ms, 30_000);
    let o = o.languages(vec![Language::French]).timeout(10);
    assert_eq!(o.languages, vec![Language::French]);
    assert_eq!(o.timeout_ms, 10);
}

#[test]
fn threshold_removes_low_confidence_elements() {
    let r = engine(500_000).complete(BackendOutcome::Finished(three())).unwrap();
    let texts: Vec<&str> = r.elements.iter().map(|e| e.text.as_str()).collect();
    assert_eq!(texts, vec!["A", "C"]);
    assert!(r.elements.iter().all(|e| e.confidence >= 500_000));
    assert_eq!(r.full_text, "AC");
    assert_eq!(r.overall_confidence, Some(700_000));
}

#[test]
fn zero_threshold_keeps_everything() {
    let r = engine(0).complete(BackendOutcome::Finished(three())).unwrap();
    assert_eq!(r.elements.len(), 3);
    assert_eq!(r.full_text, "ABC");
    assert_eq!(r.overall_confidence, Some(533_333));
}

#[test]
fn threshold_above_every_element_leaves_none() {
    let r = engine(1_000_000).complete(BackendOutcome::Finished(three())).unwrap();
    assert!(r.elements.is_empty());
    assert_eq!(r.full_text, "");
    assert_eq!(r.overall_confidence, None);
}

#[test]
fn timed_out_call_is_timeout_error() {
    let r = engine(0).complete(BackendOutcome::TimedOut);
    assert_eq!(r.unwrap_err(), OcrError::Timeout);
}

#[test]
fn backend_error_is_passed_on() {
    let e = OcrError::NetworkError("refused".to_string());
    let r = engine(0).complete(BackendOutcome::Failed(e.clone()));
    assert_eq!(r.unwrap_err(), e);
}

#[test]
fn custom_summary_result() {
    let out = NativeOutput::Summary {
        text: "abc".to_string(),
        confidence: 420_000,
        structured: "{}".to_string(),
    };
    let e = OcrEngine::new(OcrProvider::Custom { credentials: Credentials::default() }).unwrap();
    let r = e.complete(BackendOutcome::Finished(out)).unwrap();
    assert_eq!(r.full_text, "abc");
    assert_eq!(r.overall_confidence, Some(420_000));
    assert_eq!(r.metadata, "{}");
    assert_eq!(r.elements.len(), 1);
    assert_eq!(r.elements[0].confidence, 420_000);
}

#[test]
fn remote_answer_below_threshold_is_filtered() {
    let out = NativeOutput::Summary {
        text: "abc".to_string(),
        confidence: 420_000,
        structured: "{}".to_string(),
    };
    let r = engine(500_000).complete(BackendOutcome::Finished(out)).unwrap();
    assert!(r.elements.is_empty());
    assert_eq!(r.full_text, "");
    assert_eq!(r.overall_confidence, None);
    assert_eq!(r.metadata, "{}");
}

#[test]
fn same_outcome_same_text() {
    let e = engine(300_000);
    let a = e.complete(BackendOutcome::Finished(three())).unwrap();
    let b = e.complete(BackendOutcome::Finished(three())).unwrap();
    assert_eq!(a.full_text, b.full_text);
    assert_eq!(a.overall_confidence, b.overall_confidence);
}

#[test]
fn plan_refuses_empty_image() {
    let caps = Capabilities { vision: false, windows_media: false };
    let r = engine(0).plan(0, 10, caps);
    assert!(matches!(r, Err(OcrError::InvalidImage(_))));
}

#[test]
fn plan_translates_languages_for_the_backend() {
    let caps = Capabilities { vision: false, windows_media: false };
    let opts = OcrOptions::default().languages(vec![Language::English, Language::Greek]).timeout(10);
    let e = OcrEngine::new(OcrProvider::Auto).unwrap().with_options(opts);
    let q = e.plan(20, 20, caps).unwrap();
    assert_eq!(q.backend, Backend::Tesseract);
    assert_eq!(q.language_codes, vec!["eng", "ell"]);
    assert_eq!(q.timeout_ms, 10);
    let m = e.plan(20, 20, Capabilities { vision: true, windows_media: false }).unwrap();
    assert_eq!(m.backend, Backend::Vision);
    assert_eq!(m.language_codes, vec!["en-US"]);
}

#[test]
fn plan_reports_unsupported_platform() {
    let caps = Capabilities { vision: false, windows_media: false };
    let e = OcrEngine::new(OcrProvider::Windows).unwrap();
    assert_eq!(e.plan(5, 5, caps).unwrap_err(), OcrError::UnsupportedPlatform);
}

#[test]
fn unreadable_answer_is_passed_on() {
    let e = OcrError::SerializationError("expected value".to_string());
    let r = engine(0).complete(BackendOutcome::Failed(e.clone()));
    assert_eq!(r.unwrap_err(), e);
}
