//! A provider-agnostic text recognition layer: language-code translation,
//! backend selection, result normalisation and the decisions that an engine
//! makes around each backend call. Confidences and coordinates are integers
//! in millionths of one unit.
use vstd::prelude::*;

pub mod batch;
pub mod catalog;
pub mod engine;
pub mod error;
pub mod language;
pub mod normalize;
pub mod provider;
pub mod remote;

pub use batch::{BatchFailure, BatchRun};
pub use catalog::{get_apple_languages, translate, Backend};
pub use engine::{BackendOutcome, BackendRequest, OcrEngine, OcrOptions};
pub use error::OcrError;
pub use language::Language;
pub use normalize::{
    normalize, ConfidenceScale, NativeBox, NativeElement, NativeOutput, Point, TextElement,
    UnifiedResult, UNIT,
};
pub use provider::{resolve, Capabilities, Credentials, OcrProvider};
pub use remote::{remote_request, RemoteRequest};

verus! {

} // verus!
