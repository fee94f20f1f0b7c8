//! Guardrails orchestration: the data model of detections and generations,
//! and the verified coordination logic that sits between text-generation
//! backends, chunkers and detectors.
//!
//! Scores and thresholds are integers in millionths (`SCORE_SCALE` is
//! certainty). Spans, masks and chunk offsets count characters (Unicode
//! scalar values), not bytes: for ASCII text the two agree, for other text
//! a caller that holds byte offsets converts them first.

pub mod sorting;

pub mod chunk;
pub mod config;
pub mod detection;
pub mod detection_warning;
pub mod detector_params;
pub mod errors;
pub mod guardrails_config;
pub mod text_generation;

pub mod clients;
pub mod text_contents;

pub mod batcher;
pub mod chat;
pub mod classification;
pub mod generation_detection;
pub mod streaming;
