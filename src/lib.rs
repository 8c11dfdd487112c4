//! Live speech transcription engine with self-calibrating voice activity
//! detection, plus the model catalogue and settings types around it.

pub mod capture;
pub mod cli;
pub mod hallucination;
pub mod models;
pub mod resample;
pub mod session;
pub mod text;
pub mod transcriber;
pub mod vad;
pub mod whisper_model;
