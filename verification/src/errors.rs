//! Error taxonomy of the engine.

use vstd::prelude::*;

verus! {

/// Everything that can go wrong inside the engine.
///
/// - `ModelLoad`: the model artifact is missing, unreadable or implausibly
///   small; analysis is impossible until a model is loaded.
/// - `Inference`: the inference backend failed for one call; the caller may
///   retry on the next frame.
/// - `ShapeMismatch`: the output tensor does not have the expected rank,
///   feature count or element count; a model/engine contract violation.
/// - `NoDetection`: no detection slot cleared the objectness floor; expected
///   and frequent, the caller simply skips this frame.
/// - `Calibration`: none of the baseline ratios could be computed from the
///   calibration frame.
/// - `ImageDecode`: the supplied image bytes could not be decoded.
#[derive(Clone, Copy, Debug, PartialEq, Eq, Structural)]
pub enum EngineError {
    ModelLoad,
    Inference,
    ShapeMismatch,
    NoDetection,
    Calibration,
    ImageDecode,
}

} // verus!
