use vstd::prelude::*;

use crate::catalog::{translate, translated, views, Backend};
use crate::error::OcrError;
use crate::language::Language;
use crate::normalize::{
    conf_sum, joined, mean_conf, normalize, normalized, NativeOutput, TextElement, UnifiedResult,
    UNIT,
};
use crate::provider::{resolve, resolved, Capabilities, OcrProvider};

verus! {

/// What the engine asks of every recognition: languages in order of
/// priority, the least confidence (millionths of one) that an element must
/// have to be kept, and the deadline of each backend call.
#[derive(Clone, Debug)]
pub struct OcrOptions {
    pub languages: Vec<Language>,
    pub confidence_threshold: u64,
    pub timeout_ms: u64,
}

/// The options that a new engine starts with: English, no threshold, thirty
/// seconds.
pub open spec fn default_options(o: OcrOptions) -> bool {
    &&& o.languages@ == seq![Language::English]
    &&& o.confidence_threshold == 0
    &&& o.timeout_ms == 30_000
}

impl Default for OcrOptions {
    fn default() -> (r: Self)
        ensures
            default_options(r),
    {
        let mut languages: Vec<Language> = Vec::new();
        languages.push(Language::English);
        assert(languages@ =~= seq![Language::English]);
        OcrOptions { languages, confidence_threshold: 0, timeout_ms: 30_000 }
    }
}

impl OcrOptions {
    /// These options with `langs` as the languages.
    pub fn languages(self, langs: Vec<Language>) -> (r: Self)
        ensures
            r.languages@ == langs@,
            r.confidence_threshold == self.confidence_threshold,
            r.timeout_ms == self.timeout_ms,
    {
        OcrOptions { languages: langs, ..self }
    }

    /// These options with `threshold` (millionths of one) as the least
    /// confidence of a kept element.
    pub fn confidence_threshold(self, threshold: u64) -> (r: Self)
        requires
            threshold <= UNIT,
        ensures
            r.languages@ == self.languages@,
            r.confidence_threshold == threshold,
            r.timeout_ms == self.timeout_ms,
    {
        OcrOptions { confidence_threshold: threshold, ..self }
    }

    /// These options with a deadline of `timeout_ms` milliseconds per call.
    pub fn timeout(self, timeout_ms: u64) -> (r: Self)
        ensures
            r.languages@ == self.languages@,
            r.confidence_threshold == self.confidence_threshold,
            r.timeout_ms == timeout_ms,
    {
        OcrOptions { timeout_ms, ..self }
    }
}

/// One call that the engine wants made: which backend, with which native
/// language codes, under which deadline.
#[derive(Clone, Debug)]
pub struct BackendRequest {
    pub backend: Backend,
    pub language_codes: Vec<String>,
    pub timeout_ms: u64,
}

/// How a backend call ended.
#[derive(Clone, Debug)]
pub enum BackendOutcome {
    /// The backend answered.
    Finished(NativeOutput),
    /// The backend reported an error.
    Failed(OcrError),
    /// The deadline passed first.
    TimedOut,
}

/// The elements of `s` whose confidence is at least `t`, in order.
pub open spec fn kept(s: Seq<TextElement>, t: u64) -> Seq<TextElement>
    decreases s.len(),
{
    if s.len() == 0 {
        Seq::empty()
    } else {
        let rest = kept(s.drop_last(), t);
        if s.last().confidence >= t {
            rest.push(s.last())
        } else {
            rest
        }
    }
}

/// What threshold filtering makes of `r`: the elements at or above `t` are
/// kept, and the text and overall confidence are those of the kept elements
/// (no confidence where none is kept).
pub open spec fn filtered(r: UnifiedResult, t: u64, out: UnifiedResult) -> bool {
    &&& out.elements@ == kept(r.elements@, t)
    &&& out.full_text@ == joined(out.elements@)
    &&& out.overall_confidence == mean_conf(out.elements@)
    &&& out.metadata == r.metadata
}

/// Removes from `r` the elements whose confidence is below `t`, and
/// recomputes the text and the overall confidence from those that remain.
pub fn apply_threshold(r: UnifiedResult, t: u64) -> (out: UnifiedResult)
    requires
        r.overall_confidence matches Some(c) ==> c <= UNIT,
        forall|i: int| 0 <= i < r.elements@.len() ==> #[trigger] r.elements@[i].confidence <= UNIT,
    ensures
        filtered(r, t, out),
        out.overall_confidence matches Some(c) ==> c <= UNIT,
{
    let ghost orig = r.elements@;
    let UnifiedResult { full_text: _, elements: mut rest, overall_confidence: _, metadata } = r;
    let mut out: Vec<TextElement> = Vec::new();
    let mut text = String::new();
    let mut sum: u128 = 0;
    let mut i: usize = 0;
    let n = rest.len();
    while i < n
        invariant
            n == orig.len(),
            i <= n,
            rest@ == orig.subrange(i as int, n as int),
            out@ == kept(orig.subrange(0, i as int), t),
            out@.len() <= i,
            text@ == joined(out@),
            sum == conf_sum(out@),
            crate::normalize::confs_bounded(out@),
            forall|j: int| 0 <= j < orig.len() ==> #[trigger] orig[j].confidence <= UNIT,
        decreases n - i,
    {
        let e = rest.remove(0);
        assert(orig.subrange(0, i + 1).drop_last() =~= orig.subrange(0, i as int));
        assert(e == orig[i as int]);
        if e.confidence >= t {
            proof {
                crate::normalize::lemma_sum_bounded(out@);
                assert(out@.len() * UNIT <= usize::MAX * UNIT) by (nonlinear_arith)
                    requires
                        out@.len() <= usize::MAX,
                ;
            }
            text.append(e.text.as_str());
            sum = sum + e.confidence as u128;
            let ghost before = out@;
            out.push(e);
            assert(out@.drop_last() =~= before);
        }
        assert(rest@ =~= orig.subrange(i + 1, n as int));
        i = i + 1;
    }
    assert(orig.subrange(0, n as int) =~= orig);
    let overall = if out.len() == 0 {
        None
    } else {
        proof {
            crate::normalize::lemma_mean_bounded(out@);
            crate::normalize::lemma_sum_bounded(out@);
        }
        Some((sum / (out.len() as u128)) as u64)
    };
    UnifiedResult { full_text: text, elements: out, overall_confidence: overall, metadata }
}

/// Every element that filtering keeps has a confidence of at least the
/// threshold.
pub proof fn kept_meet_threshold(s: Seq<TextElement>, t: u64)
    ensures
        forall|i: int| 0 <= i < kept(s, t).len() ==> #[trigger] kept(s, t)[i].confidence >= t,
    decreases s.len(),
{
    if s.len() > 0 {
        kept_meet_threshold(s.drop_last(), t);
        let rest = kept(s.drop_last(), t);
        assert forall|i: int| 0 <= i < kept(s, t).len() implies #[trigger] kept(s, t)[i].confidence
            >= t by {
            if i < rest.len() {
                assert(kept(s, t)[i] == rest[i]);
            }
        }
    }
}

/// A threshold of zero keeps every element.
pub proof fn zero_threshold_keeps_all(s: Seq<TextElement>)
    ensures
        kept(s, 0) == s,
    decreases s.len(),
{
    if s.len() > 0 {
        zero_threshold_keeps_all(s.drop_last());
        assert(s.drop_last().push(s.last()) =~= s);
    }
}

/// After filtering with threshold `t`, every element of the result has a
/// confidence of at least `t`; with `t` zero the elements are exactly those
/// of the unfiltered result.
pub proof fn threshold_filtering(r: UnifiedResult, t: u64, out: UnifiedResult)
    requires
        filtered(r, t, out),
    ensures
        forall|i: int| 0 <= i < out.elements@.len() ==> #[trigger] out.elements@[i].confidence >= t,
        t == 0 ==> out.elements@ == r.elements@,
{
    kept_meet_threshold(r.elements@, t);
    zero_threshold_keeps_all(r.elements@);
}

/// Filtering and joining look at each element's text and confidence alone.
proof fn lemma_kept_text_agrees(a: Seq<TextElement>, b: Seq<TextElement>, t: u64)
    requires
        a.len() == b.len(),
        forall|i: int|
            0 <= i < a.len() ==> (#[trigger] a[i]).text@ == b[i].text@ && a[i].confidence
                == b[i].confidence,
    ensures
        joined(kept(a, t)) == joined(kept(b, t)),
    decreases a.len(),
{
    if a.len() > 0 {
        let (da, db) = (a.drop_last(), b.drop_last());
        assert forall|i: int| 0 <= i < da.len() implies (#[trigger] da[i]).text@ == db[i].text@
            && da[i].confidence == db[i].confidence by {
            assert(da[i] == a[i] && db[i] == b[i]);
        }
        lemma_kept_text_agrees(da, db, t);
        assert(a.last() == a[a.len() - 1] && b.last() == b[b.len() - 1]);
        let (ka, kb) = (kept(da, t), kept(db, t));
        if a.last().confidence >= t {
            assert(kept(a, t).drop_last() =~= ka);
            assert(kept(b, t).drop_last() =~= kb);
        }
    }
}

/// The result that an engine with `opts` makes of a backend's outcome.
pub open spec fn completed(opts: OcrOptions, o: BackendOutcome, r: Result<UnifiedResult, OcrError>) -> bool {
    match o {
        BackendOutcome::Finished(n) => r matches Ok(u) && exists|m: UnifiedResult|
            normalized(n, m) && filtered(m, opts.confidence_threshold, u),
        BackendOutcome::Failed(e) => r == Err::<UnifiedResult, OcrError>(e),
        BackendOutcome::TimedOut => r == Err::<UnifiedResult, OcrError>(OcrError::Timeout),
    }
}

/// A recognition engine: one provider choice and one set of options.
#[derive(Clone, Debug)]
pub struct OcrEngine {
    pub provider: OcrProvider,
    pub options: OcrOptions,
}

impl OcrEngine {
    /// An engine for `provider` with the default options.
    pub fn new(provider: OcrProvider) -> (r: Result<Self, OcrError>)
        ensures
            r matches Ok(e) && e.provider == provider && default_options(e.options),
    {
        Ok(OcrEngine { provider, options: OcrOptions::default() })
    }

    /// This engine with `options` in place of its own.
    pub fn with_options(self, options: OcrOptions) -> (r: Self)
        ensures
            r.provider == self.provider,
            r.options == options,
    {
        OcrEngine { options, ..self }
    }

    /// Decides the backend call for an image of `width` by `height` pixels on
    /// a platform with `caps`: an image without pixels is refused before any
    /// backend is chosen; otherwise the provider is resolved and the
    /// languages are translated into the backend's vocabulary.
    pub fn plan(&self, width: u32, height: u32, caps: Capabilities) -> (r: Result<BackendRequest, OcrError>)
        ensures
            (width == 0 || height == 0) ==> r matches Err(OcrError::InvalidImage(_)),
            (width > 0 && height > 0) ==> match resolved(self.provider, caps) {
                Ok(b) => r matches Ok(q) && q.backend == b && views(q.language_codes@) == translated(
                    b,
                    self.options.languages@,
                ) && q.timeout_ms == self.options.timeout_ms,
                Err(e) => r == Err::<BackendRequest, OcrError>(e),
            },
    {
        if width == 0 || height == 0 {
            return Err(OcrError::InvalidImage("the image has no pixels".to_owned()));
        }
        match resolve(&self.provider, caps) {
            Ok(backend) => {
                let language_codes = translate(backend, self.options.languages.as_slice());
                Ok(BackendRequest { backend, language_codes, timeout_ms: self.options.timeout_ms })
            },
            Err(e) => Err(e),
        }
    }

    /// Turns a backend's outcome into the engine's answer: an answer is
    /// normalised and then filtered by the confidence threshold, a backend
    /// error is passed on unchanged, and a passed deadline is `Timeout`.
    pub fn complete(&self, outcome: BackendOutcome) -> (r: Result<UnifiedResult, OcrError>)
        ensures
            completed(self.options, outcome, r),
            r matches Ok(u) ==> (u.overall_confidence matches Some(c) ==> c <= UNIT),
    {
        match outcome {
            BackendOutcome::Finished(n) => {
                let m = normalize(&n);
                proof {
                    assert forall|i: int| 0 <= i < m.elements@.len() implies #[trigger] m.elements@[
                        i
                    ].confidence <= UNIT by {
                        if let NativeOutput::Elements { elements, scale, image_width, image_height } = n {
                            assert(crate::normalize::normalized_element(
                                m.elements@[i],
                                elements@[i],
                                scale,
                                image_width,
                                image_height,
                            ));
                        }
                    }
                }
                let u = apply_threshold(m, self.options.confidence_threshold);
                Ok(u)
            },
            BackendOutcome::Failed(e) => Err(e),
            BackendOutcome::TimedOut => Err(OcrError::Timeout),
        }
    }
}

/// The engine's answer depends on its options and the backend's outcome
/// alone: the same outcome, as a deterministic backend gives for the same
/// image, yields the same text.
pub proof fn completion_is_deterministic(
    opts: OcrOptions,
    o: BackendOutcome,
    r1: Result<UnifiedResult, OcrError>,
    r2: Result<UnifiedResult, OcrError>,
)
    requires
        completed(opts, o, r1),
        completed(opts, o, r2),
    ensures
        r1 matches Ok(u1) ==> r2 matches Ok(u2) && u1.full_text@ == u2.full_text@,
        r1 matches Err(e1) ==> r2 == Err::<UnifiedResult, OcrError>(e1),
{
    match o {
        BackendOutcome::Finished(n) => {
            let u1 = r1->Ok_0;
            let u2 = r2->Ok_0;
            let m1 = choose|m: UnifiedResult| normalized(n, m) && filtered(m, opts.confidence_threshold, u1);
            let m2 = choose|m: UnifiedResult| normalized(n, m) && filtered(m, opts.confidence_threshold, u2);
            match n {
                NativeOutput::Elements { elements, scale, image_width, image_height } => {
                    assert forall|i: int| 0 <= i < m1.elements@.len() implies (
                    #[trigger] m1.elements@[i]).text@ == m2.elements@[i].text@
                        && m1.elements@[i].confidence == m2.elements@[i].confidence by {
                        assert(crate::normalize::normalized_element(
                            m1.elements@[i],
                            elements@[i],
                            scale,
                            image_width,
                            image_height,
                        ));
                        assert(crate::normalize::normalized_element(
                            m2.elements@[i],
                            elements@[i],
                            scale,
                            image_width,
                            image_height,
                        ));
                    }
                },
                NativeOutput::Summary { .. } => {},
            }
            lemma_kept_text_agrees(m1.elements@, m2.elements@, opts.confidence_threshold);
        },
        _ => {},
    }
}

} // verus!
