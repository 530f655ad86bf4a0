//! The posture analysis engine: per-frame classification against the stored
//! calibration and sensitivity configuration, temporal debouncing of the raw
//! detection flags, and adaptive control of the analysis interval.
//!
//! The engine holds no clock and runs no inference itself: the caller hands
//! it the network's output tensor (quantized to thousandths) and the elapsed
//! wall-clock time, and performs the backend call between `preprocess` and
//! `analyze_output`.

use vstd::prelude::*;
use vstd::arithmetic::div_mod::lemma_div_is_ordered_by_denominator;
use vstd::arithmetic::div_mod::lemma_div_pos_is_pos;
use std::collections::VecDeque;

use crate::classify;
use crate::classify::{
    spec_average_confidence, spec_face_shoulder_ratio, spec_head_forward_ratio,
    spec_posture_score, spec_recommendations, spec_shoulder_alignment_ratio,
    spec_shoulder_misalignment, spec_turtle_neck, RATIO_LIMIT, TOL_LIMIT,
};
use crate::debounce::{push_and_count, spec_debounced, spec_push_window};
use crate::decode::{decode_output, is_best_slot, spec_pose};
use crate::errors::EngineError;
use crate::keypoints::{PoseKeypoints, CONFIDENCE_FLOOR, DIM_LIMIT, VALUE_LIMIT};

verus! {

/// How many recent per-frame detection flags the debounce windows hold.
pub const WINDOW_SIZE: usize = 3;

/// Default debounce threshold: how many of the window must agree.
pub const DEFAULT_THRESHOLD_COUNT: usize = 2;

/// Score at or above which the rate controller relaxes the interval.
pub const GOOD_SCORE: u8 = 80;

/// Score below which the rate controller tightens the interval.
pub const POOR_SCORE: u8 = 60;

/// Default, smallest, largest and step of the analysis interval, in
/// milliseconds.
pub const INTERVAL_DEFAULT_MS: u64 = 3000;

/// Smallest analysis interval, in milliseconds.
pub const INTERVAL_MIN_MS: u64 = 1000;

/// Largest analysis interval, in milliseconds.
pub const INTERVAL_MAX_MS: u64 = 10000;

/// Step by which the analysis interval relaxes or tightens.
pub const INTERVAL_STEP_MS: u64 = 1000;

/// Fewest bytes a plausible model artifact holds.
pub const MIN_MODEL_BYTES: usize = 100_000;

/// What one analysis cycle reports back to the caller.
#[derive(Clone, Debug)]
pub struct AnalysisResult {
    /// Debounced turtle-neck flag.
    pub turtle_neck: bool,
    /// Debounced shoulder-misalignment flag.
    pub shoulder_misalignment: bool,
    /// Per-frame posture score in [0, 100], from the raw detection flags.
    pub posture_score: u8,
    /// Average landmark confidence in thousandths.
    pub confidence: i64,
    /// Recommendation texts for the debounced detections.
    pub recommendations: Vec<String>,
}

/// The engine's state: calibration baselines, sensitivity configuration,
/// debounce windows and the adaptive analysis interval.
pub struct PoseAnalyzer {
    /// Whether the caller has loaded a model into its inference backend.
    pub model_ready: bool,
    /// Minimum spacing between two accepted analysis cycles, in
    /// milliseconds.
    pub analysis_interval_ms: u64,
    /// Whether adaptive rate control (power saving) is active.
    pub power_save: bool,
    /// Objectness floor for the decoder, in thousandths.
    pub confidence_threshold: i64,
    /// Recent raw turtle-neck detection flags, oldest first.
    pub recent_turtle_neck_results: VecDeque<bool>,
    /// Recent raw shoulder-misalignment detection flags, oldest first.
    pub recent_shoulder_results: VecDeque<bool>,
    /// Capacity of each debounce window.
    pub temporal_window_size: usize,
    /// Calibrated face-width-to-shoulder-width ratio, in thousandths.
    pub baseline_face_shoulder_ratio: Option<i64>,
    /// Calibrated shoulder-alignment ratio, in thousandths.
    pub baseline_shoulder_alignment: Option<i64>,
    /// Calibrated head-forward ratio, in thousandths.
    pub baseline_head_forward_ratio: Option<i64>,
    /// How many of the window must agree for a debounced detection.
    pub temporal_threshold_count: usize,
    /// Turtle-neck tolerances: (ratio tolerance, forward tolerance), in
    /// thousandths.
    pub turtle_neck_thresholds: (i64, i64),
    /// Shoulder tolerances: (relative tolerance, absolute floor), in
    /// thousandths.
    pub shoulder_alignment_thresholds: (i64, i64),
}

/// A baseline after one calibration: the freshly computed ratio, or `None`
/// where the calibration frame allowed none. Every calibration overwrites
/// all three baselines; nothing stale survives.
pub open spec fn spec_calibrated(computed: Option<int>) -> Option<i64> {
    match computed {
        Some(v) => Some(v as i64),
        None => None,
    }
}

/// The analysis interval after one recorded score: good scores relax it by
/// one step up to the maximum, poor scores tighten it by one step down to
/// the minimum, mid-range scores reset it to the default.
pub open spec fn spec_next_interval(cur: u64, score: u8) -> int {
    if score >= GOOD_SCORE {
        if cur + INTERVAL_STEP_MS <= INTERVAL_MAX_MS {
            cur + INTERVAL_STEP_MS
        } else {
            INTERVAL_MAX_MS as int
        }
    } else if score < POOR_SCORE {
        if cur >= INTERVAL_MIN_MS + INTERVAL_STEP_MS {
            cur - INTERVAL_STEP_MS
        } else {
            INTERVAL_MIN_MS as int
        }
    } else {
        INTERVAL_DEFAULT_MS as int
    }
}

impl PoseAnalyzer {
    /// The engine's internal invariant: debounce windows within capacity,
    /// threshold within the window, baselines and tolerances in range, and
    /// the interval between its clamps.
    pub open spec fn wf(self) -> bool {
        &&& 1 <= self.temporal_window_size
        &&& 1 <= self.temporal_threshold_count <= self.temporal_window_size
        &&& self.recent_turtle_neck_results@.len() <= self.temporal_window_size
        &&& self.recent_shoulder_results@.len() <= self.temporal_window_size
        &&& (self.baseline_face_shoulder_ratio matches Some(b) ==> 0 <= b <= RATIO_LIMIT)
        &&& (self.baseline_shoulder_alignment matches Some(b) ==> 0 <= b <= RATIO_LIMIT)
        &&& (self.baseline_head_forward_ratio matches Some(b) ==> 0 <= b <= RATIO_LIMIT)
        &&& 0 < self.turtle_neck_thresholds.0 <= TOL_LIMIT
        &&& 0 < self.turtle_neck_thresholds.1 <= TOL_LIMIT
        &&& 0 < self.shoulder_alignment_thresholds.0 <= TOL_LIMIT
        &&& 0 < self.shoulder_alignment_thresholds.1 <= TOL_LIMIT
        &&& self.confidence_threshold == CONFIDENCE_FLOOR
        &&& INTERVAL_MIN_MS <= self.analysis_interval_ms <= INTERVAL_MAX_MS
    }

    /// The raw turtle-neck flag this state assigns a frame.
    pub open spec fn spec_raw_turtle(self, kp: PoseKeypoints) -> bool {
        spec_turtle_neck(
            kp,
            self.baseline_face_shoulder_ratio,
            self.baseline_head_forward_ratio,
            self.turtle_neck_thresholds.0,
            self.turtle_neck_thresholds.1,
        )
    }

    /// The raw shoulder-misalignment flag this state assigns a frame.
    pub open spec fn spec_raw_shoulder(self, kp: PoseKeypoints) -> bool {
        spec_shoulder_misalignment(
            kp,
            self.baseline_shoulder_alignment,
            self.shoulder_alignment_thresholds.0,
            self.shoulder_alignment_thresholds.1,
        )
    }

    /// A fresh engine: normal sensitivity everywhere, empty history, no
    /// calibration, default interval, adaptive mode off.
    pub fn new() -> (engine: PoseAnalyzer)
        ensures
            engine.wf(),
            !engine.model_ready,
            engine.analysis_interval_ms == INTERVAL_DEFAULT_MS,
            !engine.power_save,
            engine.confidence_threshold == CONFIDENCE_FLOOR,
            engine.recent_turtle_neck_results@ == Seq::<bool>::empty(),
            engine.recent_shoulder_results@ == Seq::<bool>::empty(),
            engine.temporal_window_size == WINDOW_SIZE,
            engine.baseline_face_shoulder_ratio is None,
            engine.baseline_shoulder_alignment is None,
            engine.baseline_head_forward_ratio is None,
            engine.temporal_threshold_count == DEFAULT_THRESHOLD_COUNT,
            engine.turtle_neck_thresholds == (30i64, 20i64),
            engine.shoulder_alignment_thresholds == (900i64, 180i64),
    {
        PoseAnalyzer {
            model_ready: false,
            analysis_interval_ms: INTERVAL_DEFAULT_MS,
            power_save: false,
            confidence_threshold: CONFIDENCE_FLOOR,
            recent_turtle_neck_results: VecDeque::new(),
            recent_shoulder_results: VecDeque::new(),
            temporal_window_size: WINDOW_SIZE,
            baseline_face_shoulder_ratio: None,
            baseline_shoulder_alignment: None,
            baseline_head_forward_ratio: None,
            temporal_threshold_count: DEFAULT_THRESHOLD_COUNT,
            turtle_neck_thresholds: (30, 20),
            shoulder_alignment_thresholds: (900, 180),
        }
    }

    /// Sets how many of the debounce window must agree before an alert:
    /// level 1 is sensitive (1 of 3), level 3 insensitive (3 of 3), any
    /// other level the default 2 of 3.
    pub fn set_notification_frequency(&mut self, level: u8)
        requires
            old(self).wf(),
            old(self).temporal_window_size == WINDOW_SIZE,
        ensures
            final(self).wf(),
            final(self).temporal_threshold_count == (if level == 1 {
                1int
            } else if level == 3 {
                3int
            } else {
                2int
            }),
            *final(self) == (PoseAnalyzer {
                temporal_threshold_count: final(self).temporal_threshold_count,
                ..*old(self)
            }),
    {
        let count: usize = if level == 1 {
            1
        } else if level == 3 {
            3
        } else {
            2
        };
        self.temporal_threshold_count = count;
    }

    /// Sets the turtle-neck tolerances: level 1 loose, level 3 strict, any
    /// other level normal.
    pub fn set_turtle_neck_sensitivity(&mut self, level: u8)
        requires
            old(self).wf(),
        ensures
            final(self).wf(),
            final(self).turtle_neck_thresholds == (if level == 1 {
                (40i64, 30i64)
            } else if level == 3 {
                (20i64, 15i64)
            } else {
                (30i64, 20i64)
            }),
            *final(self) == (PoseAnalyzer {
                turtle_neck_thresholds: final(self).turtle_neck_thresholds,
                ..*old(self)
            }),
    {
        let thresholds: (i64, i64) = if level == 1 {
            (40, 30)
        } else if level == 3 {
            (20, 15)
        } else {
            (30, 20)
        };
        self.turtle_neck_thresholds = thresholds;
    }

    /// Sets the shoulder-misalignment tolerances: level 1 loose, level 3
    /// strict, any other level normal.
    pub fn set_shoulder_sensitivity(&mut self, level: u8)
        requires
            old(self).wf(),
        ensures
            final(self).wf(),
            final(self).shoulder_alignment_thresholds == (if level == 1 {
                (1200i64, 220i64)
            } else if level == 3 {
                (700i64, 150i64)
            } else {
                (900i64, 180i64)
            }),
            *final(self) == (PoseAnalyzer {
                shoulder_alignment_thresholds: final(self).shoulder_alignment_thresholds,
                ..*old(self)
            }),
    {
        let thresholds: (i64, i64) = if level == 1 {
            (1200, 220)
        } else if level == 3 {
            (700, 150)
        } else {
            (900, 180)
        };
        self.shoulder_alignment_thresholds = thresholds;
    }

    /// Records whether the caller's inference backend holds a loaded model.
    pub fn set_model_ready(&mut self, ready: bool)
        requires
            old(self).wf(),
        ensures
            final(self).wf(),
            final(self).model_ready == ready,
            *final(self) == (PoseAnalyzer { model_ready: ready, ..*old(self) }),
    {
        self.model_ready = ready;
    }

    /// Whether a model has been loaded.
    pub fn is_model_initialized(&self) -> (r: bool)
        ensures
            r == self.model_ready,
    {
        self.model_ready
    }

    /// A status report for diagnostics, as a small fixed JSON text.
    pub fn test_analysis(&self) -> (r: Result<String, EngineError>)
        ensures
            match r {
                Ok(s) => s@ == (if self.model_ready {
                    "{\"status\": \"verified_yolo_model_loaded\", \"test\": \"success\"}"@
                } else {
                    "{\"status\": \"verified_yolo_model_not_loaded\", \"test\": \"success\"}"@
                }),
                Err(_) => false,
            },
    {
        if self.is_model_initialized() {
            Ok("{\"status\": \"verified_yolo_model_loaded\", \"test\": \"success\"}".to_owned())
        } else {
            Ok("{\"status\": \"verified_yolo_model_not_loaded\", \"test\": \"success\"}".to_owned())
        }
    }

    /// Empties both debounce windows, as after an alert has fired.
    pub fn clear_recent_results(&mut self)
        requires
            old(self).wf(),
        ensures
            final(self).wf(),
            final(self).recent_turtle_neck_results@ == Seq::<bool>::empty(),
            final(self).recent_shoulder_results@ == Seq::<bool>::empty(),
            *final(self) == (PoseAnalyzer {
                recent_turtle_neck_results: final(self).recent_turtle_neck_results,
                recent_shoulder_results: final(self).recent_shoulder_results,
                ..*old(self)
            }),
    {
        self.recent_turtle_neck_results.clear();
        self.recent_shoulder_results.clear();
    }

    /// Turns adaptive rate control (power saving) on or off.
    pub fn set_power_save(&mut self, enabled: bool)
        requires
            old(self).wf(),
        ensures
            final(self).wf(),
            final(self).power_save == enabled,
            *final(self) == (PoseAnalyzer { power_save: enabled, ..*old(self) }),
    {
        self.power_save = enabled;
    }

    /// Gate for a new analysis cycle: with adaptive mode off every submitted
    /// frame is eligible; with it on, enough wall-clock time must have
    /// passed since the last accepted cycle.
    pub fn should_run_now(&self, elapsed_ms: u64) -> (r: bool)
        ensures
            r == (!self.power_save || elapsed_ms >= self.analysis_interval_ms),
    {
        !self.power_save || elapsed_ms >= self.analysis_interval_ms
    }

    /// Feeds one cycle's score back into the rate controller. Only adaptive
    /// mode adjusts the interval.
    pub fn record_result(&mut self, score: u8)
        requires
            old(self).wf(),
        ensures
            final(self).wf(),
            final(self).analysis_interval_ms as int == (if old(self).power_save {
                spec_next_interval(old(self).analysis_interval_ms, score)
            } else {
                old(self).analysis_interval_ms as int
            }),
            *final(self) == (PoseAnalyzer {
                analysis_interval_ms: final(self).analysis_interval_ms,
                ..*old(self)
            }),
    {
        if self.power_save {
            if score >= GOOD_SCORE {
                self.analysis_interval_ms = if self.analysis_interval_ms + INTERVAL_STEP_MS
                    <= INTERVAL_MAX_MS {
                    self.analysis_interval_ms + INTERVAL_STEP_MS
                } else {
                    INTERVAL_MAX_MS
                };
            } else if score < POOR_SCORE {
                self.analysis_interval_ms = if self.analysis_interval_ms >= INTERVAL_MIN_MS
                    + INTERVAL_STEP_MS {
                    self.analysis_interval_ms - INTERVAL_STEP_MS
                } else {
                    INTERVAL_MIN_MS
                };
            } else {
                self.analysis_interval_ms = INTERVAL_DEFAULT_MS;
            }
        }
    }

    /// Computes and stores the calibration baselines from one frame's
    /// keypoints, overwriting any prior calibration: each of the three
    /// ratios is computed independently and becomes the new baseline, or
    /// `None` when its landmarks are not confident. A frame from which no
    /// ratio at all can be computed reports `Calibration`.
    pub fn set_baseline_from_keypoints(&mut self, kp: &PoseKeypoints) -> (r: Result<
        (),
        EngineError,
    >)
        requires
            old(self).wf(),
            kp.in_range(),
        ensures
            final(self).wf(),
            final(self).baseline_face_shoulder_ratio == spec_calibrated(
                spec_face_shoulder_ratio(*kp),
            ),
            final(self).baseline_shoulder_alignment == spec_calibrated(
                spec_shoulder_alignment_ratio(*kp),
            ),
            final(self).baseline_head_forward_ratio == spec_calibrated(
                spec_head_forward_ratio(*kp),
            ),
            *final(self) == (PoseAnalyzer {
                baseline_face_shoulder_ratio: final(self).baseline_face_shoulder_ratio,
                baseline_shoulder_alignment: final(self).baseline_shoulder_alignment,
                baseline_head_forward_ratio: final(self).baseline_head_forward_ratio,
                ..*old(self)
            }),
            r is Ok <==> (spec_face_shoulder_ratio(*kp) is Some || spec_shoulder_alignment_ratio(
                *kp,
            ) is Some || spec_head_forward_ratio(*kp) is Some),
            r matches Err(e) ==> e == EngineError::Calibration,
    {
        let face = classify::calculate_face_shoulder_ratio(kp);
        let alignment = classify::calculate_shoulder_alignment_ratio(kp);
        let forward = classify::calculate_head_forward_ratio(kp);
        let any = face.is_some() || alignment.is_some() || forward.is_some();
        self.baseline_face_shoulder_ratio = face;
        self.baseline_shoulder_alignment = alignment;
        self.baseline_head_forward_ratio = forward;
        if any {
            Ok(())
        } else {
            Err(EngineError::Calibration)
        }
    }

    /// One full analysis cycle on a decoded output tensor: with a model
    /// loaded, decode the best detection, classify it against the stored
    /// calibration and sensitivity, record the raw detection flags in the
    /// debounce windows, and report the debounced detections with the
    /// per-frame score, recommendations and average confidence. Without a
    /// loaded model analysis is refused outright; on any error the engine
    /// is unchanged.
    pub fn analyze_output(
        &mut self,
        data: &Vec<i64>,
        shape: &Vec<usize>,
        orig_width: u32,
        orig_height: u32,
    ) -> (r: Result<AnalysisResult, EngineError>)
        requires
            old(self).wf(),
            forall|m: int| 0 <= m < data@.len() ==> 0 <= #[trigger] data@[m] <= VALUE_LIMIT,
            orig_width <= DIM_LIMIT,
            orig_height <= DIM_LIMIT,
        ensures
            final(self).wf(),
            match r {
                Ok(res) => {
                    &&& old(self).model_ready
                    &&& crate::decode::shape_ok(shape@, data@.len() as int)
                    &&& 0 <= res.confidence <= crate::keypoints::MILLI
                    &&& exists|i: int|
                        #[trigger] is_best_slot(data@, shape@[2] as int, i) && spec_analysis_cycle(
                            *old(self),
                            *final(self),
                            res,
                            spec_pose(data@, shape@[2] as int, i, orig_width, orig_height),
                        )
                },
                Err(e) => {
                    &&& *final(self) == *old(self)
                    &&& match e {
                        EngineError::ModelLoad => !old(self).model_ready,
                        EngineError::ShapeMismatch => old(self).model_ready
                            && !crate::decode::shape_ok(shape@, data@.len() as int),
                        EngineError::NoDetection => old(self).model_ready
                            && crate::decode::shape_ok(shape@, data@.len() as int)
                            && !crate::decode::any_qualifies(data@, shape@[2] as int),
                        _ => false,
                    }
                },
            },
    {
        if !self.is_model_initialized() {
            return Err(EngineError::ModelLoad);
        }
        let kp = match decode_output(data, shape, orig_width, orig_height) {
            Ok(kp) => kp,
            Err(e) => {
                return Err(e);
            },
        };

        let raw_turtle = classify::detect_turtle_neck(
            &kp,
            self.baseline_face_shoulder_ratio,
            self.baseline_head_forward_ratio,
            self.turtle_neck_thresholds.0,
            self.turtle_neck_thresholds.1,
        );
        let raw_shoulder = classify::detect_shoulder_misalignment(
            &kp,
            self.baseline_shoulder_alignment,
            self.shoulder_alignment_thresholds.0,
            self.shoulder_alignment_thresholds.1,
        );
        let posture_score = classify::calculate_posture_score(raw_turtle, raw_shoulder);

        let threshold_count = self.temporal_threshold_count;
        let window_size = self.temporal_window_size;
        let turtle_count = push_and_count(
            &mut self.recent_turtle_neck_results,
            window_size,
            raw_turtle,
        );
        let turtle_neck = turtle_count >= threshold_count;
        let shoulder_count = push_and_count(
            &mut self.recent_shoulder_results,
            window_size,
            raw_shoulder,
        );
        let shoulder_misalignment = shoulder_count >= threshold_count;

        let recommendations = classify::generate_recommendations(turtle_neck, shoulder_misalignment);
        let confidence = classify::calculate_average_confidence(&kp);

        let res = AnalysisResult {
            turtle_neck,
            shoulder_misalignment,
            posture_score,
            confidence,
            recommendations,
        };
        proof {
            let dets = shape@[2] as int;
            let i = choose|i: int|
                #[trigger] is_best_slot(data@, dets, i) && kp == spec_pose(
                    data@,
                    dets,
                    i,
                    orig_width,
                    orig_height,
                );
            assert(is_best_slot(data@, dets, i) && spec_analysis_cycle(
                *old(self),
                *self,
                res,
                spec_pose(data@, dets, i, orig_width, orig_height),
            ));
        }
        Ok(res)
    }
}

/// What one successful analysis cycle does to the engine and reports, given
/// the decoded keypoints `kp` of the frame: the raw detection flags come from the
/// pre-cycle calibration and sensitivity alone, each debounce window gains
/// the raw detection flag, the reported detection flags are the debounced ones, the score
/// comes from the raw detection flags, and nothing else of the engine changes.
pub open spec fn spec_analysis_cycle(
    pre: PoseAnalyzer,
    post: PoseAnalyzer,
    res: AnalysisResult,
    kp: PoseKeypoints,
) -> bool {
    let raw_turtle = pre.spec_raw_turtle(kp);
    let raw_shoulder = pre.spec_raw_shoulder(kp);
    &&& post.recent_turtle_neck_results@ == spec_push_window(
        pre.recent_turtle_neck_results@,
        pre.temporal_window_size as int,
        raw_turtle,
    )
    &&& post.recent_shoulder_results@ == spec_push_window(
        pre.recent_shoulder_results@,
        pre.temporal_window_size as int,
        raw_shoulder,
    )
    &&& post == (PoseAnalyzer {
        recent_turtle_neck_results: post.recent_turtle_neck_results,
        recent_shoulder_results: post.recent_shoulder_results,
        ..pre
    })
    &&& res.turtle_neck == spec_debounced(
        post.recent_turtle_neck_results@,
        pre.temporal_threshold_count as int,
    )
    &&& res.shoulder_misalignment == spec_debounced(
        post.recent_shoulder_results@,
        pre.temporal_threshold_count as int,
    )
    &&& res.posture_score as int == spec_posture_score(raw_turtle, raw_shoulder)
    &&& res.confidence == spec_average_confidence(kp)
    &&& res.recommendations.deep_view() == spec_recommendations(
        res.turtle_neck,
        res.shoulder_misalignment,
    )
}

/// Checks that a model artifact is plausibly a complete model: missing or
/// truncated files are rejected before any load is attempted.
pub fn validate_model_artifact(bytes: &Vec<u8>) -> (r: Result<(), EngineError>)
    ensures
        r is Ok <==> bytes@.len() >= MIN_MODEL_BYTES,
        r matches Err(e) ==> e == EngineError::ModelLoad,
{
    if bytes.len() >= MIN_MODEL_BYTES {
        Ok(())
    } else {
        Err(EngineError::ModelLoad)
    }
}

/// The raw (pre-debounce) detection flags and the score of a frame depend only on
/// the calibration baselines and sensitivity thresholds: two analysis
/// cycles over the same keypoints with no calibration or sensitivity change
/// between them assign the same raw detection flags and the same posture score,
/// whatever the detection histories hold.
pub proof fn lemma_raw_flags_frame_determined(
    first: PoseAnalyzer,
    second: PoseAnalyzer,
    kp: PoseKeypoints,
)
    requires
        first.baseline_face_shoulder_ratio == second.baseline_face_shoulder_ratio,
        first.baseline_shoulder_alignment == second.baseline_shoulder_alignment,
        first.baseline_head_forward_ratio == second.baseline_head_forward_ratio,
        first.turtle_neck_thresholds == second.turtle_neck_thresholds,
        first.shoulder_alignment_thresholds == second.shoulder_alignment_thresholds,
    ensures
        first.spec_raw_turtle(kp) == second.spec_raw_turtle(kp),
        first.spec_raw_shoulder(kp) == second.spec_raw_shoulder(kp),
        spec_posture_score(first.spec_raw_turtle(kp), first.spec_raw_shoulder(kp))
            == spec_posture_score(second.spec_raw_turtle(kp), second.spec_raw_shoulder(kp)),
{
}

/// Calibrating on a frame makes that frame the neutral reference: with any
/// positive tolerances, the turtle-neck detector reports `false` on the
/// very frame the baselines were just computed from.
pub proof fn lemma_calibration_neutralizes_turtle_neck(
    kp: PoseKeypoints,
    ratio_tolerance: i64,
    forward_tolerance: i64,
)
    requires
        kp.in_range(),
        0 < ratio_tolerance,
        0 < forward_tolerance,
    ensures
        !spec_turtle_neck(
            kp,
            spec_calibrated(spec_face_shoulder_ratio(kp)),
            spec_calibrated(spec_head_forward_ratio(kp)),
            ratio_tolerance,
            forward_tolerance,
        ),
{
    if spec_face_shoulder_ratio(kp) is Some {
        let face_width = crate::classify::spec_abs_diff(kp.right_eye.x as int, kp.left_eye.x as int);
        let shoulder_width = crate::classify::spec_abs_diff(
            kp.right_shoulder.x as int,
            kp.left_shoulder.x as int,
        );
        lemma_ratio_bounds(face_width, shoulder_width);
    }
    if spec_head_forward_ratio(kp) is Some {
        let ear_center = (kp.left_ear.x + kp.right_ear.x) / 2;
        let shoulder_center = (kp.left_shoulder.x + kp.right_shoulder.x) / 2;
        lemma_div_pos_is_pos(kp.left_ear.x + kp.right_ear.x, 2);
        lemma_div_pos_is_pos(kp.left_shoulder.x + kp.right_shoulder.x, 2);
        vstd::arithmetic::div_mod::lemma_div_is_ordered(
            kp.left_ear.x + kp.right_ear.x,
            2 * crate::keypoints::COORD_LIMIT as int,
            2,
        );
        vstd::arithmetic::div_mod::lemma_div_is_ordered(
            kp.left_shoulder.x + kp.right_shoulder.x,
            2 * crate::keypoints::COORD_LIMIT as int,
            2,
        );
        let shoulder_width = crate::classify::spec_abs_diff(
            kp.right_shoulder.x as int,
            kp.left_shoulder.x as int,
        );
        lemma_ratio_bounds(
            crate::classify::spec_abs_diff(ear_center, shoulder_center),
            shoulder_width,
        );
    }
}

/// Every ratio the classifier forms is nonnegative and at most its numerator
/// scaled by 1000.
proof fn lemma_ratio_bounds(num: int, den: int)
    requires
        0 <= num,
        1 <= den,
    ensures
        0 <= crate::classify::spec_ratio(num, den) <= num * 1000,
{
    lemma_div_pos_is_pos(num * 1000, den);
    lemma_div_is_ordered_by_denominator(num * 1000, 1, den);
    assert(num * 1000 / 1 == num * 1000);
}

} // verus!
