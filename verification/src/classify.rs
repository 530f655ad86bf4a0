//! Per-frame posture classification: pure geometry over one frame's
//! keypoints, an optional personal baseline, and the current sensitivity
//! thresholds.
//!
//! Every signal first demands detector confidence of at least
//! `CONFIDENCE_FLOOR` on the landmarks it reads; absent confident evidence a
//! signal evaluates to `false` (no detection), never to an error.

use vstd::prelude::*;
use vstd::arithmetic::div_mod::lemma_div_is_ordered;
use vstd::arithmetic::div_mod::lemma_div_is_ordered_by_denominator;
use vstd::arithmetic::div_mod::lemma_div_multiples_vanish;
use vstd::arithmetic::div_mod::lemma_div_pos_is_pos;

use crate::keypoints::{PoseKeypoints, CONFIDENCE_FLOOR, COORD_LIMIT, MILLI};

verus! {

/// Upper bound on every ratio the classifier computes or stores, in
/// thousandths.
pub const RATIO_LIMIT: i64 = 4_000_000_000_000_000;

/// Upper bound on a configurable tolerance, in thousandths.
pub const TOL_LIMIT: i64 = 1_000_000;

/// Head-forward ratio above which the turtle-neck detector fires when no
/// baseline has been calibrated: 0.08.
pub const UNCALIBRATED_FORWARD_FLOOR: i64 = 80;

/// Uncalibrated shoulder-misalignment floor on the raw
/// height-difference-to-width ratio: 0.1.
pub const UNCALIBRATED_SHOULDER_RAW_FLOOR: i64 = 100;

/// Uncalibrated shoulder-misalignment floor on the face-height-corrected
/// ratio: 0.15.
pub const UNCALIBRATED_SHOULDER_CORRECTED_FLOOR: i64 = 150;

/// Absolute difference.
pub open spec fn spec_abs_diff(a: int, b: int) -> int {
    if a >= b {
        a - b
    } else {
        b - a
    }
}

/// A dimensionless ratio in thousandths: `num / den` scaled by 1000, floored.
pub open spec fn spec_ratio(num: int, den: int) -> int {
    (num * 1000) / den
}

/// Face width over shoulder width, or `None` when the eyes or shoulders are
/// not confidently detected or the shoulders are closer than a pixel.
pub open spec fn spec_face_shoulder_ratio(kp: PoseKeypoints) -> Option<int> {
    if kp.left_eye.confidence < CONFIDENCE_FLOOR || kp.right_eye.confidence < CONFIDENCE_FLOOR
        || kp.left_shoulder.confidence < CONFIDENCE_FLOOR || kp.right_shoulder.confidence
        < CONFIDENCE_FLOOR {
        None
    } else {
        let face_width = spec_abs_diff(kp.right_eye.x as int, kp.left_eye.x as int);
        let shoulder_width = spec_abs_diff(kp.right_shoulder.x as int, kp.left_shoulder.x as int);
        if shoulder_width > 1000 {
            Some(spec_ratio(face_width, shoulder_width))
        } else {
            None
        }
    }
}

/// Horizontal offset of the ear center from the shoulder center, normalized
/// by shoulder width; `None` without confident ears and shoulders or without
/// a shoulder width above a pixel.
pub open spec fn spec_head_forward_ratio(kp: PoseKeypoints) -> Option<int> {
    if kp.left_ear.confidence < CONFIDENCE_FLOOR || kp.right_ear.confidence < CONFIDENCE_FLOOR
        || kp.left_shoulder.confidence < CONFIDENCE_FLOOR || kp.right_shoulder.confidence
        < CONFIDENCE_FLOOR {
        None
    } else {
        let ear_center = (kp.left_ear.x + kp.right_ear.x) / 2;
        let shoulder_center = (kp.left_shoulder.x + kp.right_shoulder.x) / 2;
        let shoulder_width = spec_abs_diff(kp.right_shoulder.x as int, kp.left_shoulder.x as int);
        if shoulder_width > 1000 {
            Some(spec_ratio(spec_abs_diff(ear_center, shoulder_center), shoulder_width))
        } else {
            None
        }
    }
}

/// Vertical shoulder-height difference normalized by the nose-to-shoulder
/// vertical span; `None` without confident shoulders and nose or without a
/// span above a pixel.
pub open spec fn spec_shoulder_alignment_ratio(kp: PoseKeypoints) -> Option<int> {
    if kp.left_shoulder.confidence < CONFIDENCE_FLOOR || kp.right_shoulder.confidence
        < CONFIDENCE_FLOOR || kp.nose.confidence < CONFIDENCE_FLOOR {
        None
    } else {
        let height_diff = spec_abs_diff(kp.left_shoulder.y as int, kp.right_shoulder.y as int);
        let avg_shoulder_y = (kp.left_shoulder.y + kp.right_shoulder.y) / 2;
        let face_height_proxy = spec_abs_diff(avg_shoulder_y, kp.nose.y as int);
        if face_height_proxy > 1000 {
            Some(spec_ratio(height_diff, face_height_proxy))
        } else {
            None
        }
    }
}

/// The turtle-neck flag: the proximity signal (face-shoulder ratio above
/// the calibrated baseline plus tolerance; skipped entirely without a
/// baseline) or the forward-head signal (head-forward ratio above the
/// baseline plus tolerance, or above the fixed uncalibrated floor).
pub open spec fn spec_turtle_neck(
    kp: PoseKeypoints,
    baseline_face_shoulder: Option<i64>,
    baseline_head_forward: Option<i64>,
    ratio_tolerance: i64,
    forward_tolerance: i64,
) -> bool {
    let face_too_close = match baseline_face_shoulder {
        Some(b) => match spec_face_shoulder_ratio(kp) {
            Some(c) => c > b + ratio_tolerance,
            None => false,
        },
        None => false,
    };
    let head_forward = match baseline_head_forward {
        Some(b) => match spec_head_forward_ratio(kp) {
            Some(c) => c > b + forward_tolerance,
            None => false,
        },
        None => match spec_head_forward_ratio(kp) {
            Some(c) => c > UNCALIBRATED_FORWARD_FLOOR,
            None => false,
        },
    };
    face_too_close || head_forward
}

/// The shoulder-misalignment flag. With a baseline, the corrected ratio
/// must exceed both the baseline plus tolerance and the absolute floor (a
/// conjunction); without one, two fixed absolute floors apply to the raw and
/// corrected ratios.
pub open spec fn spec_shoulder_misalignment(
    kp: PoseKeypoints,
    baseline_alignment: Option<i64>,
    tolerance: i64,
    min_absolute_threshold: i64,
) -> bool {
    if kp.left_shoulder.confidence < CONFIDENCE_FLOOR || kp.right_shoulder.confidence
        < CONFIDENCE_FLOOR || kp.nose.confidence < CONFIDENCE_FLOOR {
        false
    } else {
        let height_diff = spec_abs_diff(kp.left_shoulder.y as int, kp.right_shoulder.y as int);
        let shoulder_width = spec_abs_diff(kp.right_shoulder.x as int, kp.left_shoulder.x as int);
        if shoulder_width < 1000 {
            false
        } else {
            let avg_shoulder_y = (kp.left_shoulder.y + kp.right_shoulder.y) / 2;
            let face_height_proxy = spec_abs_diff(avg_shoulder_y, kp.nose.y as int);
            if face_height_proxy < 1000 {
                false
            } else {
                let corrected = spec_ratio(height_diff, face_height_proxy);
                match baseline_alignment {
                    Some(b) => corrected > b + tolerance && corrected > min_absolute_threshold,
                    None => spec_ratio(height_diff, shoulder_width)
                        > UNCALIBRATED_SHOULDER_RAW_FLOOR && corrected
                        > UNCALIBRATED_SHOULDER_CORRECTED_FLOOR,
                }
            }
        }
    }
}

/// The per-frame posture score: 100, minus 30 for turtle neck, minus 20 for
/// shoulder misalignment.
pub open spec fn spec_posture_score(turtle_neck: bool, shoulder_misalignment: bool) -> int {
    100 - (if turtle_neck {
        30int
    } else {
        0int
    }) - (if shoulder_misalignment {
        20int
    } else {
        0int
    })
}

/// Average of the positive confidences among nose, shoulders and ears, or 0
/// when none is positive.
pub open spec fn spec_average_confidence(kp: PoseKeypoints) -> int {
    let n = kp.nose.confidence as int;
    let ls = kp.left_shoulder.confidence as int;
    let rs = kp.right_shoulder.confidence as int;
    let le = kp.left_ear.confidence as int;
    let re = kp.right_ear.confidence as int;
    let count = (if n > 0 { 1int } else { 0int }) + (if ls > 0 { 1int } else { 0int })
        + (if rs > 0 { 1int } else { 0int }) + (if le > 0 { 1int } else { 0int })
        + (if re > 0 { 1int } else { 0int });
    let total = (if n > 0 { n } else { 0int }) + (if ls > 0 { ls } else { 0int })
        + (if rs > 0 { rs } else { 0int }) + (if le > 0 { le } else { 0int })
        + (if re > 0 { re } else { 0int });
    if count == 0 {
        0int
    } else {
        total / count
    }
}

/// The posture score always lies in [0, 100]; detecting both conditions at
/// once yields exactly 100 - 30 - 20 = 50.
pub proof fn lemma_posture_score_bounds(turtle_neck: bool, shoulder_misalignment: bool)
    ensures
        0 <= spec_posture_score(turtle_neck, shoulder_misalignment) <= 100,
        turtle_neck && shoulder_misalignment ==> spec_posture_score(
            turtle_neck,
            shoulder_misalignment,
        ) == 50,
{
}

/// Absolute difference of two in-range coordinates.
fn abs_diff(a: i64, b: i64) -> (r: i64)
    requires
        0 <= a <= COORD_LIMIT,
        0 <= b <= COORD_LIMIT,
    ensures
        r == spec_abs_diff(a as int, b as int),
        0 <= r <= COORD_LIMIT,
{
    if a >= b {
        a - b
    } else {
        b - a
    }
}

/// Midpoint of two in-range coordinates.
fn midpoint(a: i64, b: i64) -> (r: i64)
    requires
        0 <= a <= COORD_LIMIT,
        0 <= b <= COORD_LIMIT,
    ensures
        r == (a + b) / 2,
        0 <= r <= COORD_LIMIT,
{
    (a + b) / 2
}

/// `num / den` in thousandths, floored.
fn ratio_milli(num: i64, den: i64) -> (r: i64)
    requires
        0 <= num <= 2 * COORD_LIMIT,
        1 <= den,
    ensures
        r == spec_ratio(num as int, den as int),
        0 <= r <= RATIO_LIMIT,
{
    proof {
        lemma_div_pos_is_pos(num as int * 1000, den as int);
        lemma_div_is_ordered_by_denominator(num as int * 1000, 1, den as int);
        assert(num as int * 1000 / 1 == num as int * 1000);
    }
    ((num as u64 * 1000) / (den as u64)) as i64
}

/// Face width over shoulder width, for the turtle-neck proximity signal.
pub fn calculate_face_shoulder_ratio(kp: &PoseKeypoints) -> (r: Option<i64>)
    requires
        kp.in_range(),
    ensures
        match (r, spec_face_shoulder_ratio(*kp)) {
            (Some(a), Some(b)) => a == b && 0 <= a <= RATIO_LIMIT,
            (None, None) => true,
            _ => false,
        },
{
    if kp.left_eye.confidence < CONFIDENCE_FLOOR || kp.right_eye.confidence < CONFIDENCE_FLOOR
        || kp.left_shoulder.confidence < CONFIDENCE_FLOOR || kp.right_shoulder.confidence
        < CONFIDENCE_FLOOR {
        return None;
    }
    let face_width = abs_diff(kp.right_eye.x, kp.left_eye.x);
    let shoulder_width = abs_diff(kp.right_shoulder.x, kp.left_shoulder.x);
    if shoulder_width > 1000 {
        Some(ratio_milli(face_width, shoulder_width))
    } else {
        None
    }
}

/// Ear-center offset from the shoulder center over shoulder width, for the
/// turtle-neck forward-head signal.
pub fn calculate_head_forward_ratio(kp: &PoseKeypoints) -> (r: Option<i64>)
    requires
        kp.in_range(),
    ensures
        match (r, spec_head_forward_ratio(*kp)) {
            (Some(a), Some(b)) => a == b && 0 <= a <= RATIO_LIMIT,
            (None, None) => true,
            _ => false,
        },
{
    if kp.left_ear.confidence < CONFIDENCE_FLOOR || kp.right_ear.confidence < CONFIDENCE_FLOOR
        || kp.left_shoulder.confidence < CONFIDENCE_FLOOR || kp.right_shoulder.confidence
        < CONFIDENCE_FLOOR {
        return None;
    }
    let ear_center = midpoint(kp.left_ear.x, kp.right_ear.x);
    let shoulder_center = midpoint(kp.left_shoulder.x, kp.right_shoulder.x);
    let shoulder_width = abs_diff(kp.right_shoulder.x, kp.left_shoulder.x);
    if shoulder_width > 1000 {
        Some(ratio_milli(abs_diff(ear_center, shoulder_center), shoulder_width))
    } else {
        None
    }
}

/// Shoulder-height difference over the nose-to-shoulder span, for
/// calibration of the misalignment baseline.
pub fn calculate_shoulder_alignment_ratio(kp: &PoseKeypoints) -> (r: Option<i64>)
    requires
        kp.in_range(),
    ensures
        match (r, spec_shoulder_alignment_ratio(*kp)) {
            (Some(a), Some(b)) => a == b && 0 <= a <= RATIO_LIMIT,
            (None, None) => true,
            _ => false,
        },
{
    if kp.left_shoulder.confidence < CONFIDENCE_FLOOR || kp.right_shoulder.confidence
        < CONFIDENCE_FLOOR || kp.nose.confidence < CONFIDENCE_FLOOR {
        return None;
    }
    let height_diff = abs_diff(kp.left_shoulder.y, kp.right_shoulder.y);
    let avg_shoulder_y = midpoint(kp.left_shoulder.y, kp.right_shoulder.y);
    let face_height_proxy = abs_diff(avg_shoulder_y, kp.nose.y);
    if face_height_proxy > 1000 {
        Some(ratio_milli(height_diff, face_height_proxy))
    } else {
        None
    }
}

/// The per-frame turtle-neck flag.
pub fn detect_turtle_neck(
    kp: &PoseKeypoints,
    baseline_face_shoulder: Option<i64>,
    baseline_head_forward: Option<i64>,
    ratio_tolerance: i64,
    forward_tolerance: i64,
) -> (r: bool)
    requires
        kp.in_range(),
        baseline_face_shoulder matches Some(b) ==> 0 <= b <= RATIO_LIMIT,
        baseline_head_forward matches Some(b) ==> 0 <= b <= RATIO_LIMIT,
        0 < ratio_tolerance <= TOL_LIMIT,
        0 < forward_tolerance <= TOL_LIMIT,
    ensures
        r == spec_turtle_neck(
            *kp,
            baseline_face_shoulder,
            baseline_head_forward,
            ratio_tolerance,
            forward_tolerance,
        ),
{
    let face_too_close = match baseline_face_shoulder {
        Some(b) => match calculate_face_shoulder_ratio(kp) {
            Some(c) => c > b + ratio_tolerance,
            None => false,
        },
        None => false,
    };
    let head_forward = match baseline_head_forward {
        Some(b) => match calculate_head_forward_ratio(kp) {
            Some(c) => c > b + forward_tolerance,
            None => false,
        },
        None => match calculate_head_forward_ratio(kp) {
            Some(c) => c > UNCALIBRATED_FORWARD_FLOOR,
            None => false,
        },
    };
    face_too_close || head_forward
}

/// The per-frame shoulder-misalignment flag.
pub fn detect_shoulder_misalignment(
    kp: &PoseKeypoints,
    baseline_alignment: Option<i64>,
    tolerance: i64,
    min_absolute_threshold: i64,
) -> (r: bool)
    requires
        kp.in_range(),
        baseline_alignment matches Some(b) ==> 0 <= b <= RATIO_LIMIT,
        0 < tolerance <= TOL_LIMIT,
        0 < min_absolute_threshold <= TOL_LIMIT,
    ensures
        r == spec_shoulder_misalignment(*kp, baseline_alignment, tolerance, min_absolute_threshold),
{
    if kp.left_shoulder.confidence < CONFIDENCE_FLOOR || kp.right_shoulder.confidence
        < CONFIDENCE_FLOOR || kp.nose.confidence < CONFIDENCE_FLOOR {
        return false;
    }
    let height_diff = abs_diff(kp.left_shoulder.y, kp.right_shoulder.y);
    let shoulder_width = abs_diff(kp.right_shoulder.x, kp.left_shoulder.x);
    if shoulder_width < 1000 {
        return false;
    }
    let avg_shoulder_y = midpoint(kp.left_shoulder.y, kp.right_shoulder.y);
    let face_height_proxy = abs_diff(avg_shoulder_y, kp.nose.y);
    if face_height_proxy < 1000 {
        return false;
    }
    let corrected = ratio_milli(height_diff, face_height_proxy);
    match baseline_alignment {
        Some(b) => corrected > b + tolerance && corrected > min_absolute_threshold,
        None => {
            let original = ratio_milli(height_diff, shoulder_width);
            original > UNCALIBRATED_SHOULDER_RAW_FLOOR && corrected
                > UNCALIBRATED_SHOULDER_CORRECTED_FLOOR
        },
    }
}

/// The per-frame posture score, from the raw (pre-debounce) detection flags.
pub fn calculate_posture_score(turtle_neck: bool, shoulder_misalignment: bool) -> (r: u8)
    ensures
        r as int == spec_posture_score(turtle_neck, shoulder_misalignment),
        0 <= r <= 100,
{
    let mut score: u8 = 100;
    if turtle_neck {
        score = score - 30;
    }
    if shoulder_misalignment {
        score = score - 20;
    }
    score
}

/// Average detector confidence over the landmarks the classifier reads;
/// like every keypoint confidence it stays in [0, 1].
pub fn calculate_average_confidence(kp: &PoseKeypoints) -> (r: i64)
    requires
        kp.in_range(),
    ensures
        r == spec_average_confidence(*kp),
        0 <= r <= MILLI,
{
    let mut count: i64 = 0;
    let mut total: i64 = 0;
    if kp.nose.confidence > 0 {
        count = count + 1;
        total = total + kp.nose.confidence;
    }
    if kp.left_shoulder.confidence > 0 {
        count = count + 1;
        total = total + kp.left_shoulder.confidence;
    }
    if kp.right_shoulder.confidence > 0 {
        count = count + 1;
        total = total + kp.right_shoulder.confidence;
    }
    if kp.left_ear.confidence > 0 {
        count = count + 1;
        total = total + kp.left_ear.confidence;
    }
    if kp.right_ear.confidence > 0 {
        count = count + 1;
        total = total + kp.right_ear.confidence;
    }
    if count == 0 {
        0
    } else {
        proof {
            lemma_div_pos_is_pos(total as int, count as int);
            lemma_div_multiples_vanish(MILLI as int, count as int);
            lemma_div_is_ordered(total as int, count as int * MILLI as int, count as int);
        }
        ((total as u64) / (count as u64)) as i64
    }
}

/// Recommendation texts for the debounced detections, as the engine's caller
/// shows them.
pub fn generate_recommendations(turtle_neck: bool, shoulder_misalignment: bool) -> (r: Vec<String>)
    ensures
        r.deep_view() == spec_recommendations(turtle_neck, shoulder_misalignment),
{
    let mut recommendations: Vec<String> = Vec::new();
    if turtle_neck {
        recommendations.push("목을 곧게 펴고 턱을 당기세요".to_owned());
        recommendations.push("모니터 높이를 눈높이에 맞춰주세요".to_owned());
    }
    if shoulder_misalignment {
        recommendations.push("어깨를 수평으로 맞춰주세요".to_owned());
        recommendations.push("등받이에 등을 완전히 기대주세요".to_owned());
    }
    if recommendations.len() == 0 {
        recommendations.push("좋은 자세를 유지하고 있습니다!".to_owned());
    }
    proof {
        assert(recommendations.deep_view() =~= spec_recommendations(
            turtle_neck,
            shoulder_misalignment,
        ));
    }
    recommendations
}

/// The recommendation texts, by flag pair: both condition texts when both
/// conditions hold, each pair alone otherwise, and a single approval text
/// when neither holds.
pub open spec fn spec_recommendations(turtle_neck: bool, shoulder_misalignment: bool) -> Seq<
    Seq<char>,
> {
    if turtle_neck && shoulder_misalignment {
        seq![
            "목을 곧게 펴고 턱을 당기세요"@,
            "모니터 높이를 눈높이에 맞춰주세요"@,
            "어깨를 수평으로 맞춰주세요"@,
            "등받이에 등을 완전히 기대주세요"@,
        ]
    } else if turtle_neck {
        seq!["목을 곧게 펴고 턱을 당기세요"@, "모니터 높이를 눈높이에 맞춰주세요"@]
    } else if shoulder_misalignment {
        seq!["어깨를 수평으로 맞춰주세요"@, "등받이에 등을 완전히 기대주세요"@]
    } else {
        seq!["좋은 자세를 유지하고 있습니다!"@]
    }
}

} // verus!
