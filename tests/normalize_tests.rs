use ocr_engine::{
    normalize, ConfidenceScale, NativeBox, NativeElement, NativeOutput, Point, UNIT,
};

fn elem(text: &str, confidence: u64, bbox: NativeBox) -> NativeElement {
    NativeElement { text: text.to_string(), confidence, bbox }
}

#[test]
fn pixel_boxes_become_fractions() {
    let out = NativeOutput::Elements {
        elements: vec![elem(
            "Hi",
            900_000,
            NativeBox::Pixels { left: 50, top: 20, width: 100, height: 40 },
        )],
        scale: ConfidenceScale::Unit,
        image_width: 200,
        image_height: 80,
    };
    let r = normalize(&out);
    assert_eq!(
        r.elements[0].bounding_box,
        vec![
            Point { x: 250_000, y: 250_000 },
            Point { x: 750_000, y: 250_000 },
            Point { x: 750_000, y: 750_000 },
            Point { x: 250_000, y: 750_000 },
        ]
    );
    assert_eq!(r.full_text, "Hi");
    assert_eq!(r.overall_confidence, Some(900_000));
}

#[test]
fn bottom_left_boxes_are_flipped() {
    let out = NativeOutput::Elements {
        elements: vec![elem(
            "x",
            500_000,
            NativeBox::BottomLeft { x: 100_000, y: 200_000, width: 300_000, height: 100_000 },
        )],
        scale: ConfidenceScale::Unit,
        image_width: 10,
        image_height: 10,
    };
    let r = normalize(&out);
    assert_eq!(
        r.elements[0].bounding_box,
        vec![
            Point { x: 100_000, y: 700_000 },
            Point { x: 400_000, y: 700_000 },
            Point { x: 400_000, y: 800_000 },
            Point { x: 100_000, y: 800_000 },
        ]
    );
}

#[test]
fn percent_scale_is_mapped_to_unit_and_mean_taken() {
    let b = NativeBox::Pixels { left: 0, top: 0, width: 1, height: 1 };
    let out = NativeOutput::Elements {
        elements: vec![elem("ab", 90_000_000, b), elem("cd", 60_000_000, b)],
        scale: ConfidenceScale::Percent,
        image_width: 1,
        image_height: 1,
    };
    let r = normalize(&out);
    assert_eq!(r.full_text, "abcd");
    assert_eq!(r.elements[0].confidence, 900_000);
    assert_eq!(r.elements[1].confidence, 600_000);
    assert_eq!(r.overall_confidence, Some(750_000));
}

#[test]
fn overall_confidence_never_exceeds_one() {
    let b = NativeBox::Pixels { left: 0, top: 0, width: 1, height: 1 };
    let out = NativeOutput::Elements {
        elements: vec![elem("a", 5_000_000, b), elem("b", 3_000_000, b)],
        scale: ConfidenceScale::Unit,
        image_width: 1,
        image_height: 1,
    };
    assert_eq!(normalize(&out).overall_confidence, Some(UNIT));
    let s = NativeOutput::Summary {
        text: "t".to_string(),
        confidence: 7_000_000,
        structured: "{}".to_string(),
    };
    assert_eq!(normalize(&s).overall_confidence, Some(UNIT));
}

#[test]
fn no_elements_no_confidence() {
    let out = NativeOutput::Elements {
        elements: vec![],
        scale: ConfidenceScale::Percent,
        image_width: 4,
        image_height: 4,
    };
    let r = normalize(&out);
    assert_eq!(r.overall_confidence, None);
    assert_eq!(r.full_text, "");
    assert!(r.elements.is_empty());
}

#[test]
fn summary_is_one_whole_image_element() {
    let s = NativeOutput::Summary {
        text: "abc".to_string(),
        confidence: 420_000,
        structured: "{}".to_string(),
    };
    let r = normalize(&s);
    assert_eq!(r.elements.len(), 1);
    assert_eq!(r.elements[0].text, "abc");
    assert_eq!(
        r.elements[0].bounding_box,
        vec![
            Point { x: 0, y: 0 },
            Point { x: UNIT, y: 0 },
            Point { x: UNIT, y: UNIT },
            Point { x: 0, y: UNIT },
        ]
    );
    assert_eq!(r.full_text, "abc");
    assert_eq!(r.overall_confidence, Some(420_000));
}

#[test]
fn boxes_past_the_edge_are_clamped() {
    let out = NativeOutput::Elements {
        elements: vec![
            elem("p", 1, NativeBox::Pixels { left: 150, top: 60, width: 100, height: 40 }),
            elem(
                "b",
                1,
                NativeBox::BottomLeft { x: 800_000, y: 900_000, width: 400_000, height: 300_000 },
            ),
        ],
        scale: ConfidenceScale::Unit,
        image_width: 200,
        image_height: 80,
    };
    let r = normalize(&out);
    assert_eq!(
        r.elements[0].bounding_box,
        vec![
            Point { x: 750_000, y: 750_000 },
            Point { x: UNIT, y: 750_000 },
            Point { x: UNIT, y: UNIT },
            Point { x: 750_000, y: UNIT },
        ]
    );
    assert_eq!(
        r.elements[1].bounding_box,
        vec![
            Point { x: 800_000, y: 0 },
            Point { x: UNIT, y: 0 },
            Point { x: UNIT, y: 100_000 },
            Point { x: 800_000, y: 100_000 },
        ]
    );
}
