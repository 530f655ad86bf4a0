use pose_nudge::classify::{
    calculate_average_confidence, calculate_face_shoulder_ratio, calculate_head_forward_ratio,
    calculate_posture_score, calculate_shoulder_alignment_ratio, detect_shoulder_misalignment,
    detect_turtle_neck, generate_recommendations,
};
use pose_nudge::keypoints::{KeyPoint, PoseKeypoints};

fn point(x: i64, y: i64, confidence: i64) -> KeyPoint {
    KeyPoint { x, y, confidence }
}

fn blank() -> PoseKeypoints {
    let z = point(0, 0, 0);
    PoseKeypoints {
        nose: z,
        left_eye: z,
        right_eye: z,
        left_ear: z,
        right_ear: z,
        left_shoulder: z,
        right_shoulder: z,
        left_elbow: z,
        right_elbow: z,
        left_wrist: z,
        right_wrist: z,
        left_hip: z,
        right_hip: z,
        left_knee: z,
        right_knee: z,
        left_ankle: z,
        right_ankle: z,
    }
}

/// A confidently detected upper body: shoulders 200 pixels apart, ears
/// centered 24 pixels ahead of the shoulder center (head-forward ratio
/// 0.12), nose well above the shoulder line.
fn leaning_pose() -> PoseKeypoints {
    let mut kp = blank();
    kp.nose = point(200_000, 100_000, 900);
    kp.left_eye = point(190_000, 95_000, 900);
    kp.right_eye = point(210_000, 95_000, 900);
    kp.left_ear = point(224_000, 100_000, 900);
    kp.right_ear = point(224_000, 100_000, 900);
    kp.left_shoulder = point(100_000, 200_000, 900);
    kp.right_shoulder = point(300_000, 210_000, 900);
    kp
}

#[test]
fn face_shoulder_ratio_exact_value() {
    let kp = leaning_pose();
    // face width 20 px, shoulder width 200 px -> 0.1
    assert_eq!(calculate_face_shoulder_ratio(&kp), Some(100));
}

#[test]
fn face_shoulder_ratio_requires_confident_eyes() {
    let mut kp = leaning_pose();
    kp.left_eye.confidence = 499;
    assert_eq!(calculate_face_shoulder_ratio(&kp), None);
}

#[test]
fn head_forward_ratio_exact_value() {
    let kp = leaning_pose();
    // ear center 224, shoulder center 200, width 200 -> 0.12
    assert_eq!(calculate_head_forward_ratio(&kp), Some(120));
}

#[test]
fn shoulder_alignment_ratio_exact_value() {
    let kp = leaning_pose();
    // height diff 10 px, proxy |205 - 100| = 105 px -> floor(10000/105) = 0.095...
    assert_eq!(calculate_shoulder_alignment_ratio(&kp), Some(95));
}

#[test]
fn ratios_need_a_shoulder_width_above_one_pixel() {
    let mut kp = leaning_pose();
    kp.left_shoulder.x = 200_000;
    kp.right_shoulder.x = 200_500;
    assert_eq!(calculate_face_shoulder_ratio(&kp), None);
    assert_eq!(calculate_head_forward_ratio(&kp), None);
}

#[test]
fn turtle_neck_uncalibrated_uses_fixed_floor() {
    let kp = leaning_pose();
    // 0.12 > 0.08: detected without any baseline
    assert!(detect_turtle_neck(&kp, None, None, 30, 20));
}

#[test]
fn turtle_neck_uncalibrated_skips_proximity_signal() {
    let mut kp = leaning_pose();
    // move the ears back onto the shoulder center: forward ratio 0
    kp.left_ear.x = 200_000;
    kp.right_ear.x = 200_000;
    // enormous face-shoulder ratio, but no baseline: must not trigger
    kp.left_eye.x = 0;
    kp.right_eye.x = 400_000;
    assert!(!detect_turtle_neck(&kp, None, None, 30, 20));
}

#[test]
fn turtle_neck_against_calibrated_baseline() {
    let kp = leaning_pose();
    // forward ratio 120; baseline 90 with tolerance 20 -> 120 > 110
    assert!(detect_turtle_neck(&kp, None, Some(90), 30, 20));
    // baseline 110 with tolerance 20 -> 120 <= 130
    assert!(!detect_turtle_neck(&kp, None, Some(110), 30, 20));
    // proximity: current 100 vs baseline 60 + 30 -> 100 > 90
    assert!(detect_turtle_neck(&kp, Some(60), Some(200), 30, 20));
}

#[test]
fn shoulder_misalignment_uncalibrated_needs_both_floors() {
    let mut kp = leaning_pose();
    // raw ratio 0.05, corrected 0.095: neither floor cleared
    assert!(!detect_shoulder_misalignment(&kp, None, 900, 180));
    // tilt harder: diff 40 px -> raw 0.2 > 0.1, corrected floor(40000/120) = 333 > 0.15
    kp.right_shoulder.y = 240_000;
    assert!(detect_shoulder_misalignment(&kp, None, 900, 180));
}

#[test]
fn shoulder_misalignment_calibrated_is_a_conjunction() {
    let mut kp = leaning_pose();
    kp.right_shoulder.y = 240_000;
    // corrected ratio floor(40000/120) = 333
    // above baseline + tolerance but not the absolute floor: no detection
    assert!(!detect_shoulder_misalignment(&kp, Some(100), 100, 400));
    // above both: detection
    assert!(detect_shoulder_misalignment(&kp, Some(100), 100, 300));
    // above the absolute floor but within tolerance of the baseline: no detection
    assert!(!detect_shoulder_misalignment(&kp, Some(300), 100, 300));
}

#[test]
fn shoulder_misalignment_needs_confident_landmarks() {
    let mut kp = leaning_pose();
    kp.right_shoulder.y = 240_000;
    kp.nose.confidence = 499;
    assert!(!detect_shoulder_misalignment(&kp, None, 900, 180));
}

#[test]
fn posture_score_values() {
    assert_eq!(calculate_posture_score(false, false), 100);
    assert_eq!(calculate_posture_score(true, false), 70);
    assert_eq!(calculate_posture_score(false, true), 80);
    assert_eq!(calculate_posture_score(true, true), 50);
}

#[test]
fn average_confidence_ignores_zero_entries() {
    let mut kp = blank();
    kp.nose.confidence = 900;
    kp.left_shoulder.confidence = 800;
    kp.right_shoulder.confidence = 0;
    kp.left_ear.confidence = 700;
    kp.right_ear.confidence = 0;
    assert_eq!(calculate_average_confidence(&kp), 800);
    assert_eq!(calculate_average_confidence(&blank()), 0);
}

#[test]
fn recommendations_follow_the_flags() {
    assert_eq!(generate_recommendations(false, false).len(), 1);
    assert_eq!(generate_recommendations(true, false).len(), 2);
    assert_eq!(generate_recommendations(false, true).len(), 2);
    let both = generate_recommendations(true, true);
    assert_eq!(both.len(), 4);
    assert_eq!(both[0], "목을 곧게 펴고 턱을 당기세요");
    assert_eq!(both[2], "어깨를 수평으로 맞춰주세요");
    assert_eq!(
        generate_recommendations(false, false)[0],
        "좋은 자세를 유지하고 있습니다!"
    );
}
