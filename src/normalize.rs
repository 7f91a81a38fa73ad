use vstd::prelude::*;

verus! {

/// One whole unit of confidence or of an image dimension, in millionths.
pub const UNIT: u64 = 1_000_000;

/// The scale on which a backend reports confidence.
#[derive(Clone, Copy, Debug, PartialEq, Eq, Structural)]
pub enum ConfidenceScale {
    /// Millionths of one: `1_000_000` is full confidence.
    Unit,
    /// Millionths of a percent: `100_000_000` is full confidence.
    Percent,
}

/// A point of a polygon, in millionths of the image's width and height,
/// measured from its top-left corner.
#[derive(Clone, Copy, Debug, PartialEq, Eq, Structural)]
pub struct Point {
    pub x: u64,
    pub y: u64,
}

/// A box as a backend reports it.
#[derive(Clone, Copy, Debug, PartialEq, Eq, Structural)]
pub enum NativeBox {
    /// In pixels, from the top-left corner of the image.
    Pixels { left: u32, top: u32, width: u32, height: u32 },
    /// In millionths of the image's dimensions, from its bottom-left corner.
    BottomLeft { x: u32, y: u32, width: u32, height: u32 },
}

/// One unit of text as a backend reports it.
#[derive(Clone, Debug)]
pub struct NativeElement {
    pub text: String,
    pub confidence: u64,
    pub bbox: NativeBox,
}

/// What a backend hands back.
#[derive(Clone, Debug)]
pub enum NativeOutput {
    /// A list of detections, in reading order, on an image of the given size.
    Elements {
        elements: Vec<NativeElement>,
        scale: ConfidenceScale,
        image_width: u32,
        image_height: u32,
    },
    /// Text with one confidence, in millionths of one, for all of it, and
    /// structured data that is kept as it came. It is read as one element
    /// that covers the whole image.
    Summary { text: String, confidence: u64, structured: String },
}

/// One recognised unit of text in the unified form.
#[derive(Clone, Debug)]
pub struct TextElement {
    pub bounding_box: Vec<Point>,
    pub confidence: u64,
    pub text: String,
}

/// The backend-independent result of one recognition.
#[derive(Clone, Debug)]
pub struct UnifiedResult {
    pub full_text: String,
    pub elements: Vec<TextElement>,
    pub overall_confidence: Option<u64>,
    pub metadata: String,
}

/// A native confidence on the scale of one, in millionths, at most `UNIT`.
pub open spec fn scaled(c: u64, scale: ConfidenceScale) -> u64 {
    let v = match scale {
        ConfidenceScale::Unit => c,
        ConfidenceScale::Percent => c / 100,
    };
    if v > UNIT {
        UNIT
    } else {
        v
    }
}

/// `v`, or `UNIT` where `v` exceeds it: a coordinate kept within the image.
pub open spec fn cap(v: int) -> int {
    if v > UNIT {
        UNIT as int
    } else {
        v
    }
}

/// `v` pixels as millionths of a dimension of `dim` pixels, at most `UNIT`.
pub open spec fn frac(v: int, dim: u32) -> int {
    if dim == 0 {
        0
    } else {
        cap(v * UNIT / dim as int)
    }
}

/// `UNIT - v`, or 0 where `v` exceeds `UNIT`: a distance from the bottom
/// turned into one from the top.
pub open spec fn flip(v: int) -> int {
    if v >= UNIT {
        0
    } else {
        UNIT - v
    }
}

/// The rectangle with the given edges, clockwise from its top-left corner.
pub open spec fn rect(l: int, t: int, r: int, b: int) -> Seq<Point> {
    seq![
        Point { x: l as u64, y: t as u64 },
        Point { x: r as u64, y: t as u64 },
        Point { x: r as u64, y: b as u64 },
        Point { x: l as u64, y: b as u64 },
    ]
}

/// Every point of `p` lies within the image.
pub open spec fn within_image(p: Seq<Point>) -> bool {
    forall|i: int| 0 <= i < p.len() ==> #[trigger] p[i].x <= UNIT && p[i].y <= UNIT
}

/// The polygon of a native box, on an image of `w` by `h` pixels.
pub open spec fn polygon(b: NativeBox, w: u32, h: u32) -> Seq<Point> {
    match b {
        NativeBox::Pixels { left, top, width, height } => rect(
            frac(left as int, w),
            frac(top as int, h),
            frac(left + width, w),
            frac(top + height, h),
        ),
        NativeBox::BottomLeft { x, y, width, height } => rect(
            cap(x as int),
            flip(y + height),
            cap(x + width),
            flip(y as int),
        ),
    }
}

/// `out` is the unified form of `e`.
pub open spec fn normalized_element(
    out: TextElement,
    e: NativeElement,
    scale: ConfidenceScale,
    w: u32,
    h: u32,
) -> bool {
    &&& out.text@ == e.text@
    &&& out.confidence == scaled(e.confidence, scale)
    &&& out.bounding_box@ == polygon(e.bbox, w, h)
}

/// The texts of `s` one after another, with nothing between them.
pub open spec fn joined(s: Seq<TextElement>) -> Seq<char>
    decreases s.len(),
{
    if s.len() == 0 {
        Seq::empty()
    } else {
        joined(s.drop_last()) + s.last().text@
    }
}

/// The sum of the confidences of `s`.
pub open spec fn conf_sum(s: Seq<TextElement>) -> int
    decreases s.len(),
{
    if s.len() == 0 {
        0
    } else {
        conf_sum(s.drop_last()) + s.last().confidence
    }
}

/// The mean confidence of `s`, rounded down; `None` for no elements.
pub open spec fn mean_conf(s: Seq<TextElement>) -> Option<u64> {
    if s.len() == 0 {
        None
    } else {
        Some((conf_sum(s) / s.len() as int) as u64)
    }
}

/// Every confidence in `s` is at most `UNIT`.
pub open spec fn confs_bounded(s: Seq<TextElement>) -> bool {
    forall|i: int| 0 <= i < s.len() ==> #[trigger] s[i].confidence <= UNIT
}

/// The result that `normalize` gives for `n`.
pub open spec fn normalized(n: NativeOutput, r: UnifiedResult) -> bool {
    match n {
        NativeOutput::Elements { elements, scale, image_width, image_height } => {
            &&& r.elements@.len() == elements@.len()
            &&& forall|i: int|
                0 <= i < elements@.len() ==> normalized_element(
                    #[trigger] r.elements@[i],
                    elements@[i],
                    scale,
                    image_width,
                    image_height,
                )
            &&& r.full_text@ == joined(r.elements@)
            &&& r.overall_confidence == mean_conf(r.elements@)
            &&& r.metadata@ == Seq::<char>::empty()
        },
        NativeOutput::Summary { text, confidence, structured } => {
            &&& r.elements@.len() == 1
            &&& r.elements@[0].text@ == text@
            &&& r.elements@[0].confidence == cap(confidence as int)
            &&& r.elements@[0].bounding_box@ == rect(0, 0, UNIT as int, UNIT as int)
            &&& r.full_text@ == text@
            &&& r.full_text@ == joined(r.elements@)
            &&& r.overall_confidence == Some(cap(confidence as int) as u64)
            &&& r.overall_confidence == mean_conf(r.elements@)
            &&& r.metadata@ == structured@
        },
    }
}

/// The sum of confidences that are each at most `UNIT` is at most
/// `UNIT` times their number.
pub proof fn lemma_sum_bounded(s: Seq<TextElement>)
    requires
        confs_bounded(s),
    ensures
        0 <= conf_sum(s) <= s.len() * UNIT,
    decreases s.len(),
{
    if s.len() > 0 {
        let d = s.drop_last();
        assert(confs_bounded(d)) by {
            assert forall|i: int| 0 <= i < d.len() implies #[trigger] d[i].confidence <= UNIT by {
                assert(d[i] == s[i]);
            }
        }
        lemma_sum_bounded(d);
        assert(s.last().confidence <= UNIT) by {
            assert(s[s.len() - 1].confidence <= UNIT);
        }
        assert((d.len() + 1) * UNIT == d.len() * UNIT + UNIT) by (nonlinear_arith);
    }
}

/// The mean of confidences that are each at most `UNIT` is at most `UNIT`.
pub proof fn lemma_mean_bounded(s: Seq<TextElement>)
    requires
        confs_bounded(s),
    ensures
        mean_conf(s) matches Some(c) ==> c <= UNIT,
{
    if s.len() > 0 {
        lemma_sum_bounded(s);
        let n = s.len() as int;
        let t = conf_sum(s);
        assert(t / n <= UNIT) by (nonlinear_arith)
            requires
                0 <= t <= n * UNIT,
                n > 0,
        ;
        assert(0 <= t / n) by (nonlinear_arith)
            requires
                0 <= t,
                n > 0,
        ;
    }
}

/// Whatever the native scale, an overall confidence after normalisation
/// lies within `[0, UNIT]`, that is within `[0, 1]`.
pub proof fn normalized_confidence_in_unit(n: NativeOutput, r: UnifiedResult)
    requires
        normalized(n, r),
    ensures
        r.overall_confidence matches Some(c) ==> c <= UNIT,
{
    match n {
        NativeOutput::Elements { elements, scale, image_width, image_height } => {
            assert(confs_bounded(r.elements@)) by {
                assert forall|i: int| 0 <= i < r.elements@.len() implies #[trigger] r.elements@[
                    i
                ].confidence <= UNIT by {
                    assert(normalized_element(
                        r.elements@[i],
                        elements@[i],
                        scale,
                        image_width,
                        image_height,
                    ));
                }
            }
            lemma_mean_bounded(r.elements@);
        },
        NativeOutput::Summary { .. } => {},
    }
}

/// Maps a native confidence onto millionths of one, capped at `UNIT`.
pub fn scale_confidence(c: u64, scale: ConfidenceScale) -> (r: u64)
    ensures
        r == scaled(c, scale),
        r <= UNIT,
{
    let v = match scale {
        ConfidenceScale::Unit => c,
        ConfidenceScale::Percent => c / 100,
    };
    if v > UNIT {
        UNIT
    } else {
        v
    }
}

/// `v`, capped at `UNIT`.
fn cap_exec(v: u64) -> (r: u64)
    ensures
        r == cap(v as int),
{
    if v > UNIT {
        UNIT
    } else {
        v
    }
}

/// `v` pixels as millionths of a dimension of `dim` pixels, at most `UNIT`.
fn pixel_frac(v: u64, dim: u32) -> (r: u64)
    requires
        v <= 2 * (u32::MAX as u64),
    ensures
        r == frac(v as int, dim),
{
    if dim == 0 {
        0
    } else {
        assert(v * UNIT <= 2 * (u32::MAX as u64) * UNIT) by (nonlinear_arith)
            requires
                v <= 2 * (u32::MAX as u64),
        ;
        assert(v * UNIT / dim as int <= v * UNIT) by (nonlinear_arith)
            requires
                dim > 0,
                v * UNIT >= 0,
        ;
        cap_exec(v * UNIT / (dim as u64))
    }
}

/// The distance from the top that a distance `v` from the bottom gives.
fn flip_exec(v: u64) -> (r: u64)
    ensures
        r == flip(v as int),
{
    if v >= UNIT {
        0
    } else {
        UNIT - v
    }
}

fn rect_exec(l: u64, t: u64, r: u64, b: u64) -> (out: Vec<Point>)
    ensures
        out@ == rect(l as int, t as int, r as int, b as int),
{
    let mut out: Vec<Point> = Vec::new();
    out.push(Point { x: l, y: t });
    out.push(Point { x: r, y: t });
    out.push(Point { x: r, y: b });
    out.push(Point { x: l, y: b });
    assert(out@ =~= rect(l as int, t as int, r as int, b as int));
    out
}

/// The polygon of `b` in top-left fractional coordinates, clockwise from the
/// top-left corner; coordinates past the image's edge are moved onto it.
pub fn box_polygon(b: NativeBox, w: u32, h: u32) -> (r: Vec<Point>)
    ensures
        r@ == polygon(b, w, h),
        within_image(r@),
{
    match b {
        NativeBox::Pixels { left, top, width, height } => {
            let l = pixel_frac(left as u64, w);
            let t = pixel_frac(top as u64, h);
            let r = pixel_frac(left as u64 + width as u64, w);
            let bt = pixel_frac(top as u64 + height as u64, h);
            let out = rect_exec(l, t, r, bt);
            assert(within_image(out@));
            out
        },
        NativeBox::BottomLeft { x, y, width, height } => {
            let t = flip_exec(y as u64 + height as u64);
            let bt = flip_exec(y as u64);
            let l = cap_exec(x as u64);
            let r = cap_exec(x as u64 + width as u64);
            let out = rect_exec(l, t, r, bt);
            assert(within_image(out@));
            out
        },
    }
}

/// Converts a native result into the unified form: boxes to top-left
/// fractional polygons within the image, confidences onto millionths of one,
/// texts joined in reading order without separators, and the overall
/// confidence as the mean of the element confidences (`None` where there are
/// no elements). A summary becomes one element over the whole image.
pub fn normalize(native: &NativeOutput) -> (r: UnifiedResult)
    ensures
        normalized(*native, r),
        r.overall_confidence matches Some(c) ==> c <= UNIT,
{
    match native {
        NativeOutput::Elements { elements, scale, image_width, image_height } => {
            let mut out: Vec<TextElement> = Vec::new();
            let mut text = String::new();
            let mut sum: u128 = 0;
            let mut i: usize = 0;
            while i < elements.len()
                invariant
                    i <= elements@.len(),
                    out@.len() == i,
                    forall|j: int|
                        0 <= j < i ==> normalized_element(
                            #[trigger] out@[j],
                            elements@[j],
                            *scale,
                            *image_width,
                            *image_height,
                        ),
                    text@ == joined(out@),
                    sum == conf_sum(out@),
                    confs_bounded(out@),
                decreases elements@.len() - i,
            {
                let e = &elements[i];
                let c = scale_confidence(e.confidence, *scale);
                let poly = box_polygon(e.bbox, *image_width, *image_height);
                let elem = TextElement { bounding_box: poly, confidence: c, text: e.text.clone() };
                proof {
                    lemma_sum_bounded(out@);
                    assert(out@.len() * UNIT <= usize::MAX * UNIT) by (nonlinear_arith)
                        requires
                            out@.len() <= usize::MAX,
                    ;
                }
                text.append(elem.text.as_str());
                sum = sum + c as u128;
                let ghost before = out@;
                out.push(elem);
                assert(out@.drop_last() =~= before);
                i = i + 1;
            }
            let overall = if out.len() == 0 {
                None
            } else {
                proof {
                    lemma_mean_bounded(out@);
                    lemma_sum_bounded(out@);
                }
                Some((sum / (out.len() as u128)) as u64)
            };
            let r = UnifiedResult {
                full_text: text,
                elements: out,
                overall_confidence: overall,
                metadata: String::new(),
            };
            proof {
                normalized_confidence_in_unit(*native, r);
            }
            r
        },
        NativeOutput::Summary { text, confidence, structured } => {
            let c = if *confidence > UNIT {
                UNIT
            } else {
                *confidence
            };
            let whole = rect_exec(0, 0, UNIT, UNIT);
            let e = TextElement { bounding_box: whole, confidence: c, text: text.clone() };
            let mut elements: Vec<TextElement> = Vec::new();
            elements.push(e);
            proof {
                assert(elements@.drop_last() =~= Seq::<TextElement>::empty());
                assert(elements@.last() == e);
                assert(joined(Seq::<TextElement>::empty()) == Seq::<char>::empty());
                assert(conf_sum(Seq::<TextElement>::empty()) == 0);
                assert(joined(elements@) =~= text@);
                assert(conf_sum(elements@) == c);
            }
            UnifiedResult {
                full_text: text.clone(),
                elements,
                overall_confidence: Some(c),
                metadata: structured.clone(),
            }
        },
    }
}

} // verus!
