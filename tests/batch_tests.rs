use ocr_engine::{BatchRun, OcrError, UnifiedResult};

fn result(text: &str) -> UnifiedResult {
    UnifiedResult {
        full_text: text.to_string(),
        elements: vec![],
        overall_confidence: None,
        metadata: String::new(),
    }
}

#[test]
fn batch_all_succeed_keeps_order_and_length() {
    let mut run = BatchRun::new(3);
    let texts = ["a", "b", "c"];
    while let Some(i) = run.next_index() {
        run.record(Ok(result(texts[i])));
    }
    let v = run.finish().unwrap();
    let got: Vec<&str> = v.iter().map(|r| r.full_text.as_str()).collect();
    assert_eq!(got, vec!["a", "b", "c"]);
}

#[test]
fn batch_stops_at_first_failure() {
    let mut run = BatchRun::new(4);
    let mut ran = vec![];
    while let Some(i) = run.next_index() {
        ran.push(i);
        if i == 1 {
            run.record(Err(OcrError::InvalidImage("bad".to_string())));
        } else {
            run.record(Ok(result("x")));
        }
    }
    assert_eq!(ran, vec![0, 1]);
    let f = run.finish().unwrap_err();
    assert_eq!(f.index, 1);
    assert_eq!(f.error, OcrError::InvalidImage("bad".to_string()));
}

#[test]
fn empty_batch_is_empty() {
    let run = BatchRun::new(0);
    assert_eq!(run.next_index(), None);
    assert!(run.finish().unwrap().is_empty());
}
