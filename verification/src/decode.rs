//! Decoding of the pose network's raw output tensor.
//!
//! The output tensor has shape `[batch = 1, features = 56, detections = D]`,
//! flattened feature-major: element `(f, i)` sits at flat index `f * D + i`.
//! The 56 features of a detection slot are laid out as
//! `[bbox(4), objectness(1), 17 x (x, y, confidence)]`.
//!
//! The decoder scans all `D` slots, picks the one with the strictly highest
//! objectness above the confidence floor, and extracts the 17 keypoints of
//! that slot, rescaling each coordinate from the network's 640x640 input
//! space back to the original image dimensions.

use vstd::prelude::*;
use vstd::arithmetic::div_mod::lemma_div_is_ordered;
use vstd::arithmetic::mul::lemma_mul_nonnegative;
use vstd::arithmetic::mul::lemma_mul_upper_bound;

use crate::errors::EngineError;
use crate::keypoints::{KeyPoint, PoseKeypoints, CONFIDENCE_FLOOR, MILLI, VALUE_LIMIT, DIM_LIMIT, COORD_LIMIT};

verus! {

/// Number of features per detection slot.
pub const FEATURES: usize = 56;

/// Side length of the network's square input, in pixels.
pub const NET_SIDE: u32 = 640;

/// The tensor metadata the decoder accepts: rank 3, one batch, 56 features,
/// and exactly `56 * D` elements.
pub open spec fn shape_ok(shape: Seq<usize>, n: int) -> bool {
    &&& shape.len() == 3
    &&& shape[0] == 1
    &&& shape[1] == 56
    &&& n == 56 * shape[2]
}

/// The objectness of detection slot `i`: feature 4.
pub open spec fn objectness(data: Seq<i64>, dets: int, i: int) -> i64 {
    data[4 * dets + i]
}

/// Slot `i` clears the objectness floor.
pub open spec fn qualifies(data: Seq<i64>, dets: int, i: int) -> bool {
    objectness(data, dets, i) > CONFIDENCE_FLOOR
}

/// Some slot clears the objectness floor.
pub open spec fn any_qualifies(data: Seq<i64>, dets: int) -> bool {
    exists|i: int| 0 <= i < dets && qualifies(data, dets, i)
}

/// Slot `i` is the detection the decoder selects: it clears the floor, every
/// earlier slot has strictly lower objectness, and no later slot exceeds it.
pub open spec fn is_best_slot(data: Seq<i64>, dets: int, i: int) -> bool {
    &&& 0 <= i < dets
    &&& qualifies(data, dets, i)
    &&& forall|j: int| 0 <= j < i ==> objectness(data, dets, j) < objectness(data, dets, i)
    &&& forall|j: int| i < j < dets ==> objectness(data, dets, j) <= objectness(data, dets, i)
}

/// A coordinate in the network's 640-pixel input space, scaled back to an
/// original dimension of `dim` pixels (all in thousandths).
pub open spec fn scale_back(v: i64, dim: u32) -> int {
    (v * dim) / 640
}

/// A raw confidence value clamped into the probability range [0, 1]: a
/// keypoint confidence never exceeds one whole unit.
pub open spec fn clamped_confidence(v: i64) -> i64 {
    if v > MILLI {
        MILLI
    } else {
        v
    }
}

/// The keypoint with index `k` of detection slot `det`, as the decoder
/// extracts it: features `5 + 3k` (x), `5 + 3k + 1` (y), `5 + 3k + 2`
/// (confidence), with x and y scaled back to the original image and the
/// confidence clamped into [0, 1].
pub open spec fn spec_keypoint(data: Seq<i64>, dets: int, det: int, k: int, w: u32, h: u32) -> KeyPoint {
    KeyPoint {
        x: scale_back(data[(5 + 3 * k) * dets + det], w) as i64,
        y: scale_back(data[(5 + 3 * k + 1) * dets + det], h) as i64,
        confidence: clamped_confidence(data[(5 + 3 * k + 2) * dets + det]),
    }
}

/// The full 17-point skeleton of detection slot `det`.
pub open spec fn spec_pose(data: Seq<i64>, dets: int, det: int, w: u32, h: u32) -> PoseKeypoints {
    PoseKeypoints {
        nose: spec_keypoint(data, dets, det, 0, w, h),
        left_eye: spec_keypoint(data, dets, det, 1, w, h),
        right_eye: spec_keypoint(data, dets, det, 2, w, h),
        left_ear: spec_keypoint(data, dets, det, 3, w, h),
        right_ear: spec_keypoint(data, dets, det, 4, w, h),
        left_shoulder: spec_keypoint(data, dets, det, 5, w, h),
        right_shoulder: spec_keypoint(data, dets, det, 6, w, h),
        left_elbow: spec_keypoint(data, dets, det, 7, w, h),
        right_elbow: spec_keypoint(data, dets, det, 8, w, h),
        left_wrist: spec_keypoint(data, dets, det, 9, w, h),
        right_wrist: spec_keypoint(data, dets, det, 10, w, h),
        left_hip: spec_keypoint(data, dets, det, 11, w, h),
        right_hip: spec_keypoint(data, dets, det, 12, w, h),
        left_knee: spec_keypoint(data, dets, det, 13, w, h),
        right_knee: spec_keypoint(data, dets, det, 14, w, h),
        left_ankle: spec_keypoint(data, dets, det, 15, w, h),
        right_ankle: spec_keypoint(data, dets, det, 16, w, h),
    }
}

/// At most one slot can be the selected one.
pub proof fn lemma_best_slot_unique(data: Seq<i64>, dets: int, i: int, j: int)
    requires
        is_best_slot(data, dets, i),
        is_best_slot(data, dets, j),
    ensures
        i == j,
{
    if i < j {
        assert(objectness(data, dets, i) < objectness(data, dets, j));
        assert(objectness(data, dets, j) <= objectness(data, dets, i));
    }
    if j < i {
        assert(objectness(data, dets, j) < objectness(data, dets, i));
        assert(objectness(data, dets, i) <= objectness(data, dets, j));
    }
}

/// Extracts keypoint `k` of detection slot `det` from the flattened tensor.
fn extract_keypoint_from_data(
    data: &Vec<i64>,
    dets: usize,
    det: usize,
    k: usize,
    orig_width: u32,
    orig_height: u32,
) -> (r: KeyPoint)
    requires
        data@.len() == 56 * dets,
        det < dets,
        k < 17,
        forall|m: int| 0 <= m < data@.len() ==> 0 <= #[trigger] data@[m] <= VALUE_LIMIT,
        orig_width <= DIM_LIMIT,
        orig_height <= DIM_LIMIT,
    ensures
        r == spec_keypoint(data@, dets as int, det as int, k as int, orig_width, orig_height),
        r.in_range(),
{
    let n = data.len();
    proof {
        assert((5 + 3 * (k as int) + 2) * (dets as int) + (det as int) < 56 * (dets as int))
            by (nonlinear_arith)
            requires
                k < 17,
                det < dets,
        ;
        assert((5 + 3 * (k as int)) * (dets as int) <= (5 + 3 * (k as int) + 1) * (dets as int)
            <= (5 + 3 * (k as int) + 2) * (dets as int)) by (nonlinear_arith)
            requires
                dets >= 0,
        ;
    }
    let base: usize = 5 + 3 * k;
    let x_idx: usize = base * dets + det;
    let y_idx: usize = (base + 1) * dets + det;
    let conf_idx: usize = (base + 2) * dets + det;
    let raw_x = data[x_idx];
    let raw_y = data[y_idx];
    let raw_confidence = data[conf_idx];
    let confidence = if raw_confidence > MILLI {
        MILLI
    } else {
        raw_confidence
    };
    proof {
        lemma_mul_nonnegative(raw_x as int, orig_width as int);
        lemma_mul_nonnegative(raw_y as int, orig_height as int);
        lemma_mul_upper_bound(raw_x as int, VALUE_LIMIT as int, orig_width as int, DIM_LIMIT as int);
        lemma_mul_upper_bound(raw_y as int, VALUE_LIMIT as int, orig_height as int, DIM_LIMIT as int);
        lemma_div_is_ordered(raw_x as int * orig_width as int, VALUE_LIMIT as int * DIM_LIMIT as int, 640);
        lemma_div_is_ordered(0, raw_x as int * orig_width as int, 640);
        lemma_div_is_ordered(raw_y as int * orig_height as int, VALUE_LIMIT as int * DIM_LIMIT as int, 640);
        lemma_div_is_ordered(0, raw_y as int * orig_height as int, 640);
    }
    let x = ((raw_x as u64 * orig_width as u64) / NET_SIDE as u64) as i64;
    let y = ((raw_y as u64 * orig_height as u64) / NET_SIDE as u64) as i64;
    KeyPoint { x, y, confidence }
}

/// Decodes the raw output tensor into the keypoints of the single best
/// detection.
///
/// Rejects any tensor whose rank, batch size, feature count or element count
/// departs from the `[1, 56, D]` layout with `ShapeMismatch`, and a tensor
/// in which no slot's objectness clears the floor with `NoDetection`;
/// otherwise it returns the skeleton of the slot with the strictly maximal
/// objectness.
pub fn decode_output(
    data: &Vec<i64>,
    shape: &Vec<usize>,
    orig_width: u32,
    orig_height: u32,
) -> (r: Result<PoseKeypoints, EngineError>)
    requires
        forall|m: int| 0 <= m < data@.len() ==> 0 <= #[trigger] data@[m] <= VALUE_LIMIT,
        orig_width <= DIM_LIMIT,
        orig_height <= DIM_LIMIT,
    ensures
        match r {
            Ok(kp) => {
                &&& shape_ok(shape@, data@.len() as int)
                &&& exists|i: int|
                    is_best_slot(data@, shape@[2] as int, i) && kp == spec_pose(
                        data@,
                        shape@[2] as int,
                        i,
                        orig_width,
                        orig_height,
                    )
                &&& kp.in_range()
            },
            Err(EngineError::ShapeMismatch) => !shape_ok(shape@, data@.len() as int),
            Err(EngineError::NoDetection) => shape_ok(shape@, data@.len() as int)
                && !any_qualifies(data@, shape@[2] as int),
            Err(_) => false,
        },
{
    if shape.len() != 3 || shape[0] != 1 || shape[1] != FEATURES {
        return Err(EngineError::ShapeMismatch);
    }
    let dets = shape[2];
    let nlen = data.len();
    let total = match FEATURES.checked_mul(dets) {
        Some(n) => n,
        None => {
            return Err(EngineError::ShapeMismatch);
        },
    };
    if nlen != total {
        return Err(EngineError::ShapeMismatch);
    }

    let mut best: Option<usize> = None;
    let mut best_conf: i64 = 0;
    let mut i: usize = 0;
    while i < dets
        invariant
            shape_ok(shape@, data@.len() as int),
            dets == shape@[2],
            nlen == data@.len(),
            data@.len() == 56 * dets,
            forall|m: int| 0 <= m < data@.len() ==> 0 <= #[trigger] data@[m] <= VALUE_LIMIT,
            i <= dets,
            match best {
                None => best_conf == 0 && forall|j: int|
                    0 <= j < i ==> objectness(data@, dets as int, j) <= CONFIDENCE_FLOOR,
                Some(b) => {
                    &&& b < i
                    &&& qualifies(data@, dets as int, b as int)
                    &&& best_conf == objectness(data@, dets as int, b as int)
                    &&& forall|j: int|
                        0 <= j < b ==> objectness(data@, dets as int, j) < best_conf
                    &&& forall|j: int|
                        b < j < i ==> objectness(data@, dets as int, j) <= best_conf
                },
            },
        decreases dets - i,
    {
        let conf = data[4 * dets + i];
        proof {
            assert(objectness(data@, dets as int, i as int) == conf);
        }
        if conf > best_conf && conf > CONFIDENCE_FLOOR {
            best_conf = conf;
            best = Some(i);
        } else {
            proof {
                if best is None {
                    assert(conf <= CONFIDENCE_FLOOR);
                    assert(forall|j: int|
                        0 <= j < i + 1 ==> objectness(data@, dets as int, j)
                            <= CONFIDENCE_FLOOR);
                }
            }
        }
        i += 1;
    }

    let det = match best {
        Some(b) => b,
        None => {
            return Err(EngineError::NoDetection);
        },
    };

    let kp = PoseKeypoints {
        nose: extract_keypoint_from_data(data, dets, det, 0, orig_width, orig_height),
        left_eye: extract_keypoint_from_data(data, dets, det, 1, orig_width, orig_height),
        right_eye: extract_keypoint_from_data(data, dets, det, 2, orig_width, orig_height),
        left_ear: extract_keypoint_from_data(data, dets, det, 3, orig_width, orig_height),
        right_ear: extract_keypoint_from_data(data, dets, det, 4, orig_width, orig_height),
        left_shoulder: extract_keypoint_from_data(data, dets, det, 5, orig_width, orig_height),
        right_shoulder: extract_keypoint_from_data(data, dets, det, 6, orig_width, orig_height),
        left_elbow: extract_keypoint_from_data(data, dets, det, 7, orig_width, orig_height),
        right_elbow: extract_keypoint_from_data(data, dets, det, 8, orig_width, orig_height),
        left_wrist: extract_keypoint_from_data(data, dets, det, 9, orig_width, orig_height),
        right_wrist: extract_keypoint_from_data(data, dets, det, 10, orig_width, orig_height),
        left_hip: extract_keypoint_from_data(data, dets, det, 11, orig_width, orig_height),
        right_hip: extract_keypoint_from_data(data, dets, det, 12, orig_width, orig_height),
        left_knee: extract_keypoint_from_data(data, dets, det, 13, orig_width, orig_height),
        right_knee: extract_keypoint_from_data(data, dets, det, 14, orig_width, orig_height),
        left_ankle: extract_keypoint_from_data(data, dets, det, 15, orig_width, orig_height),
        right_ankle: extract_keypoint_from_data(data, dets, det, 16, orig_width, orig_height),
    };
    proof {
        assert(is_best_slot(data@, dets as int, det as int));
        assert(kp == spec_pose(data@, dets as int, det as int, orig_width, orig_height));
    }
    Ok(kp)
}

} // verus!
