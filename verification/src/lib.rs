//! Decision core for turning per-frame object detections into stable,
//! vertically-oriented crop regions.
//!
//! The library is pure decision logic: geometry of crop regions, similarity
//! comparators, a scene-cut decision rule, a short-horizon motion predictor,
//! and the temporal smoothing state machines. Frame pixels, detection models,
//! and video encoding live outside; callers hand in plain values (coordinates,
//! similarity scores, frame handles) and receive crop decisions back.
//!
//! All geometry is integer arithmetic over sub-pixel units ([`crop::PIXEL`]
//! units per pixel), so every rule is exact and verifiable.

pub mod ball;
pub mod crop;
pub mod cut;
pub mod detect;
pub mod history;
pub mod history_smoothing;
pub mod predict;
pub mod simple_smoothing;
pub mod transcript;
