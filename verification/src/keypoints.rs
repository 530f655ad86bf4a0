//! Body keypoints in fixed-point image coordinates.
//!
//! A keypoint's `x`/`y` are pixel coordinates in the original image, and its
//! `confidence` the detector's confidence, all in thousandths (a confidence
//! of 0.5 is 500, an x of 12.25 pixels is 12_250).

use vstd::prelude::*;

verus! {

/// One fixed-point unit is a thousandth.
pub const MILLI: i64 = 1000;

/// Confidence (in thousandths) a keypoint must reach before a geometric
/// signal may rely on it: 0.5.
pub const CONFIDENCE_FLOOR: i64 = 500;

/// Largest magnitude a tensor element may carry, in thousandths.
/// The engine's callers clamp quantized network outputs into
/// `[0, VALUE_LIMIT]`.
pub const VALUE_LIMIT: i64 = 1_000_000_000;

/// Largest original-image side length the engine accepts, in pixels.
pub const DIM_LIMIT: u32 = 1_000_000;

/// Bound on a decoded coordinate, in thousandths: a tensor element of at
/// most `VALUE_LIMIT` scaled back by at most `DIM_LIMIT / 640` stays well
/// under this, and all downstream arithmetic on values this size fits in
/// `i64`.
pub const COORD_LIMIT: i64 = 2_000_000_000_000;

/// One detected body landmark.
#[derive(Clone, Copy, Debug, PartialEq, Eq, Structural)]
pub struct KeyPoint {
    pub x: i64,
    pub y: i64,
    pub confidence: i64,
}

impl KeyPoint {
    /// The ranges every keypoint produced by the decoder lies in: a
    /// confidence is a probability in [0, 1] (at most `MILLI` thousandths),
    /// and the classifier's arithmetic is overflow-free on the coordinates.
    pub open spec fn in_range(self) -> bool {
        &&& 0 <= self.x <= COORD_LIMIT
        &&& 0 <= self.y <= COORD_LIMIT
        &&& 0 <= self.confidence <= MILLI
    }
}

/// The fixed 17-point body skeleton of one detected person.
#[derive(Clone, Copy, Debug, PartialEq, Eq, Structural)]
pub struct PoseKeypoints {
    pub nose: KeyPoint,
    pub left_eye: KeyPoint,
    pub right_eye: KeyPoint,
    pub left_ear: KeyPoint,
    pub right_ear: KeyPoint,
    pub left_shoulder: KeyPoint,
    pub right_shoulder: KeyPoint,
    pub left_elbow: KeyPoint,
    pub right_elbow: KeyPoint,
    pub left_wrist: KeyPoint,
    pub right_wrist: KeyPoint,
    pub left_hip: KeyPoint,
    pub right_hip: KeyPoint,
    pub left_knee: KeyPoint,
    pub right_knee: KeyPoint,
    pub left_ankle: KeyPoint,
    pub right_ankle: KeyPoint,
}

impl PoseKeypoints {
    /// Every landmark is within the decoder's output ranges.
    pub open spec fn in_range(self) -> bool {
        &&& self.nose.in_range()
        &&& self.left_eye.in_range()
        &&& self.right_eye.in_range()
        &&& self.left_ear.in_range()
        &&& self.right_ear.in_range()
        &&& self.left_shoulder.in_range()
        &&& self.right_shoulder.in_range()
        &&& self.left_elbow.in_range()
        &&& self.right_elbow.in_range()
        &&& self.left_wrist.in_range()
        &&& self.right_wrist.in_range()
        &&& self.left_hip.in_range()
        &&& self.right_hip.in_range()
        &&& self.left_knee.in_range()
        &&& self.right_knee.in_range()
        &&& self.left_ankle.in_range()
        &&& self.right_ankle.in_range()
    }
}

} // verus!
