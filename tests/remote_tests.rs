use ocr_engine::{remote_request, Credentials, Language};

#[test]
fn request_body_and_headers() {
    let c = Credentials {
        api_url: "http://h/ocr".to_string(),
        api_key: "k1".to_string(),
        timeout_ms: 250,
    };
    let r = remote_request(&c, &b"abcd".to_vec(), &[Language::English, Language::Hindi]);
    assert_eq!(r.url, "http://h/ocr");
    assert_eq!(r.authorization, "Bearer k1");
    assert_eq!(r.body, "{\"image\":\"YWJjZA==\",\"languages\":[\"en\",\"hi\"]}");
    assert_eq!(r.timeout_ms, 250);
}

#[test]
fn request_body_without_languages() {
    let r = remote_request(&Credentials::default(), &vec![], &[]);
    assert_eq!(r.body, "{\"image\":\"\",\"languages\":[]}");
    assert_eq!(r.authorization, "Bearer ");
}
