//! Posture analysis engine: decodes pose-network output tensors into body
//! keypoints, classifies per-frame posture (turtle neck, shoulder
//! misalignment), keeps a personal calibration baseline, debounces noisy
//! per-frame detection flags over a sliding window, and adapts the analysis rate.
//!
//! All geometry is carried in fixed-point integers: coordinates, confidences,
//! ratios and thresholds are in thousandths (a confidence of 0.5 is 500).
//! The caller quantizes the network's floating-point tensor to thousandths
//! before handing it to the engine.

pub mod classify;
pub mod debounce;
pub mod decode;
pub mod engine;
pub mod errors;
pub mod i18n;
pub mod imageio;
pub mod keypoints;
pub mod monitor;
