use pose_nudge::classify::detect_turtle_neck;
use pose_nudge::engine::{validate_model_artifact, PoseAnalyzer};
use pose_nudge::errors::EngineError;
use pose_nudge::keypoints::{KeyPoint, PoseKeypoints};

fn point(x: i64, y: i64, confidence: i64) -> KeyPoint {
    KeyPoint { x, y, confidence }
}

fn blank() -> PoseKeypoints {
    let z = point(0, 0, 0);
    PoseKeypoints {
        nose: z,
        left_eye: z,
        right_eye: z,
        left_ear: z,
        right_ear: z,
        left_shoulder: z,
        right_shoulder: z,
        left_elbow: z,
        right_elbow: z,
        left_wrist: z,
        right_wrist: z,
        left_hip: z,
        right_hip: z,
        left_knee: z,
        right_knee: z,
        left_ankle: z,
        right_ankle: z,
    }
}

fn leaning_pose() -> PoseKeypoints {
    let mut kp = blank();
    kp.nose = point(200_000, 100_000, 900);
    kp.left_eye = point(190_000, 95_000, 900);
    kp.right_eye = point(210_000, 95_000, 900);
    kp.left_ear = point(224_000, 100_000, 900);
    kp.right_ear = point(224_000, 100_000, 900);
    kp.left_shoulder = point(100_000, 200_000, 900);
    kp.right_shoulder = point(300_000, 210_000, 900);
    kp
}

/// A `[1, 56, 1]` tensor carrying the leaning pose in 640-space, with
/// objectness 0.9 and landmark confidences 0.9.
fn leaning_tensor() -> (Vec<i64>, Vec<usize>) {
    let mut data = vec![0i64; 56];
    data[4] = 900;
    let kp = leaning_pose();
    let points = [
        kp.nose,
        kp.left_eye,
        kp.right_eye,
        kp.left_ear,
        kp.right_ear,
        kp.left_shoulder,
        kp.right_shoulder,
    ];
    for (k, p) in points.iter().enumerate() {
        let base = 5 + 3 * k;
        data[base] = p.x;
        data[base + 1] = p.y;
        data[base + 2] = p.confidence;
    }
    (data, vec![1usize, 56usize, 1usize])
}

#[test]
fn new_engine_defaults() {
    let engine = PoseAnalyzer::new();
    assert!(!engine.is_model_initialized());
    assert_eq!(engine.analysis_interval_ms, 3000);
    assert_eq!(engine.temporal_window_size, 3);
    assert_eq!(engine.temporal_threshold_count, 2);
    assert_eq!(engine.turtle_neck_thresholds, (30, 20));
    assert_eq!(engine.shoulder_alignment_thresholds, (900, 180));
    assert!(engine.baseline_head_forward_ratio.is_none());
}

#[test]
fn sensitivity_levels() {
    let mut engine = PoseAnalyzer::new();
    engine.set_notification_frequency(1);
    assert_eq!(engine.temporal_threshold_count, 1);
    engine.set_notification_frequency(3);
    assert_eq!(engine.temporal_threshold_count, 3);
    engine.set_notification_frequency(7);
    assert_eq!(engine.temporal_threshold_count, 2);
    engine.set_turtle_neck_sensitivity(1);
    assert_eq!(engine.turtle_neck_thresholds, (40, 30));
    engine.set_turtle_neck_sensitivity(3);
    assert_eq!(engine.turtle_neck_thresholds, (20, 15));
    engine.set_shoulder_sensitivity(1);
    assert_eq!(engine.shoulder_alignment_thresholds, (1200, 220));
    engine.set_shoulder_sensitivity(3);
    assert_eq!(engine.shoulder_alignment_thresholds, (700, 150));
}

#[test]
fn model_status_report() {
    let mut engine = PoseAnalyzer::new();
    assert_eq!(
        engine.test_analysis().unwrap(),
        "{\"status\": \"verified_yolo_model_not_loaded\", \"test\": \"success\"}"
    );
    engine.set_model_ready(true);
    assert!(engine.is_model_initialized());
    assert_eq!(
        engine.test_analysis().unwrap(),
        "{\"status\": \"verified_yolo_model_loaded\", \"test\": \"success\"}"
    );
}

#[test]
fn model_artifact_size_floor() {
    assert_eq!(
        validate_model_artifact(&vec![0u8; 99_999]).unwrap_err(),
        EngineError::ModelLoad
    );
    assert!(validate_model_artifact(&vec![0u8; 100_000]).is_ok());
}

// The concrete end-to-end scenario: one detection slot, objectness 0.9,
// ear-center offset ratio 0.12 against the uncalibrated floor 0.08,
// shoulder ratios below the uncalibrated floors.
#[test]
fn analyze_leaning_tensor_detects_turtle_neck() {
    let mut engine = PoseAnalyzer::new();
    engine.set_model_ready(true);
    engine.set_notification_frequency(1); // 1 of 3: debounced == raw
    let (data, shape) = leaning_tensor();
    let res = engine.analyze_output(&data, &shape, 640, 640).unwrap();
    assert!(res.turtle_neck);
    assert!(!res.shoulder_misalignment);
    assert_eq!(res.posture_score, 70);
    assert_eq!(res.confidence, 900);
    assert_eq!(res.recommendations.len(), 2);
}

// Debounce scenario: raw detection flags [true, true, false] with threshold 2 of 3
// debounce to true; [true, false, false] debounce to false.
#[test]
fn debounce_two_of_three() {
    let mut engine = PoseAnalyzer::new();
    engine.set_model_ready(true);
    let (detected, shape) = leaning_tensor();
    let mut upright = detected.clone();
    // ears back over the shoulder center: no turtle neck in this frame
    upright[5 + 3 * 3] = 200_000;
    upright[5 + 3 * 4] = 200_000;

    let r1 = engine.analyze_output(&detected, &shape, 640, 640).unwrap();
    assert_eq!(r1.posture_score, 70); // raw detection flag of the frame
    assert!(!r1.turtle_neck); // 1 of 3 so far
    let r2 = engine.analyze_output(&detected, &shape, 640, 640).unwrap();
    assert!(r2.turtle_neck); // [t, t]: 2 of 3
    let r3 = engine.analyze_output(&upright, &shape, 640, 640).unwrap();
    assert!(r3.turtle_neck); // [t, t, f]: still 2 of 3
    assert_eq!(r3.posture_score, 100); // the frame itself is clean

    let mut engine2 = PoseAnalyzer::new();
    engine2.set_model_ready(true);
    let s1 = engine2.analyze_output(&detected, &shape, 640, 640).unwrap();
    assert!(!s1.turtle_neck);
    let s2 = engine2.analyze_output(&upright, &shape, 640, 640).unwrap();
    assert!(!s2.turtle_neck);
    let s3 = engine2.analyze_output(&upright, &shape, 640, 640).unwrap();
    assert!(!s3.turtle_neck); // [t, f, f]: 1 of 3
}

#[test]
fn window_evicts_oldest_flag() {
    let mut engine = PoseAnalyzer::new();
    engine.set_model_ready(true);
    let (detected, shape) = leaning_tensor();
    let mut upright = detected.clone();
    upright[5 + 3 * 3] = 200_000;
    upright[5 + 3 * 4] = 200_000;
    for _ in 0..3 {
        engine.analyze_output(&detected, &shape, 640, 640).unwrap();
    }
    // [t, t, t] -> push f twice: [t, f, f] -> no longer detected
    engine.analyze_output(&upright, &shape, 640, 640).unwrap();
    let r = engine.analyze_output(&upright, &shape, 640, 640).unwrap();
    assert!(!r.turtle_neck);
    assert_eq!(engine.recent_turtle_neck_results.len(), 3);
}

#[test]
fn clear_recent_results_empties_the_windows() {
    let mut engine = PoseAnalyzer::new();
    engine.set_model_ready(true);
    let (data, shape) = leaning_tensor();
    engine.analyze_output(&data, &shape, 640, 640).unwrap();
    engine.clear_recent_results();
    assert_eq!(engine.recent_turtle_neck_results.len(), 0);
    assert_eq!(engine.recent_shoulder_results.len(), 0);
}

#[test]
fn analyze_errors_leave_the_engine_unchanged() {
    let mut engine = PoseAnalyzer::new();
    engine.set_model_ready(true);
    let bad_shape = vec![1usize, 55usize, 1usize];
    let r = engine.analyze_output(&vec![0i64; 55], &bad_shape, 640, 640);
    assert_eq!(r.unwrap_err(), EngineError::ShapeMismatch);
    let quiet = vec![0i64; 56];
    let shape = vec![1usize, 56usize, 1usize];
    let r2 = engine.analyze_output(&quiet, &shape, 640, 640);
    assert_eq!(r2.unwrap_err(), EngineError::NoDetection);
    assert_eq!(engine.recent_turtle_neck_results.len(), 0);
}

// Calibration effect: the frame that calibrates the baselines is afterwards
// judged neutral.
#[test]
fn calibration_neutralizes_the_calibration_frame() {
    let mut engine = PoseAnalyzer::new();
    let kp = leaning_pose();
    assert!(detect_turtle_neck(
        &kp,
        engine.baseline_face_shoulder_ratio,
        engine.baseline_head_forward_ratio,
        engine.turtle_neck_thresholds.0,
        engine.turtle_neck_thresholds.1,
    ));
    engine.set_baseline_from_keypoints(&kp).unwrap();
    assert_eq!(engine.baseline_head_forward_ratio, Some(120));
    assert_eq!(engine.baseline_face_shoulder_ratio, Some(100));
    assert_eq!(engine.baseline_shoulder_alignment, Some(95));
    assert!(!detect_turtle_neck(
        &kp,
        engine.baseline_face_shoulder_ratio,
        engine.baseline_head_forward_ratio,
        engine.turtle_neck_thresholds.0,
        engine.turtle_neck_thresholds.1,
    ));
}

#[test]
fn calibration_fails_without_confident_landmarks() {
    let mut engine = PoseAnalyzer::new();
    let r = engine.set_baseline_from_keypoints(&blank());
    assert_eq!(r.unwrap_err(), EngineError::Calibration);
    assert!(engine.baseline_head_forward_ratio.is_none());
}

#[test]
fn rate_controller_relaxes_tightens_and_resets() {
    let mut engine = PoseAnalyzer::new();
    // adaptive mode off: nothing moves, every frame is eligible
    engine.record_result(100);
    assert_eq!(engine.analysis_interval_ms, 3000);
    assert!(engine.should_run_now(0));

    engine.set_power_save(true);
    assert!(!engine.should_run_now(2999));
    assert!(engine.should_run_now(3000));

    engine.record_result(85); // good: relax
    assert_eq!(engine.analysis_interval_ms, 4000);
    for _ in 0..10 {
        engine.record_result(100);
    }
    assert_eq!(engine.analysis_interval_ms, 10_000); // clamped at the maximum

    engine.record_result(30); // poor: tighten
    assert_eq!(engine.analysis_interval_ms, 9000);
    for _ in 0..10 {
        engine.record_result(0);
    }
    assert_eq!(engine.analysis_interval_ms, 1000); // clamped at the minimum

    engine.record_result(70); // mid-range: reset
    assert_eq!(engine.analysis_interval_ms, 3000);
}

#[test]
fn analyze_refuses_without_a_model() {
    let mut engine = PoseAnalyzer::new();
    let (data, shape) = leaning_tensor();
    let r = engine.analyze_output(&data, &shape, 640, 640);
    assert_eq!(r.unwrap_err(), EngineError::ModelLoad);
    assert_eq!(engine.recent_turtle_neck_results.len(), 0);
    assert_eq!(engine.recent_shoulder_results.len(), 0);
}

// Each calibration overwrites all three baselines: a ratio the new frame
// cannot compute becomes None rather than keeping its stale value.
#[test]
fn calibration_overwrites_stale_baselines() {
    let mut engine = PoseAnalyzer::new();
    engine.set_baseline_from_keypoints(&leaning_pose()).unwrap();
    assert_eq!(engine.baseline_face_shoulder_ratio, Some(100));
    assert_eq!(engine.baseline_shoulder_alignment, Some(95));
    assert_eq!(engine.baseline_head_forward_ratio, Some(120));

    // eyes and nose below the confidence floor: only the head-forward
    // ratio is computable from this frame
    let mut partial = leaning_pose();
    partial.left_eye.confidence = 0;
    partial.nose.confidence = 0;
    engine.set_baseline_from_keypoints(&partial).unwrap();
    assert_eq!(engine.baseline_face_shoulder_ratio, None);
    assert_eq!(engine.baseline_shoulder_alignment, None);
    assert_eq!(engine.baseline_head_forward_ratio, Some(120));
}

// A keypoint confidence above one whole unit is clamped to 1.0 at
// extraction; the reported average stays in [0, 1].
#[test]
fn reported_confidence_is_clamped_to_one() {
    let mut engine = PoseAnalyzer::new();
    engine.set_model_ready(true);
    let (mut data, shape) = leaning_tensor();
    data[7] = 2000; // nose confidence 2.0
    let res = engine.analyze_output(&data, &shape, 640, 640).unwrap();
    // average of 1000 (clamped) and four times 900
    assert_eq!(res.confidence, 920);
}
