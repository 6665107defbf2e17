//! Core library for audio transcription: decoding support types, sample
//! normalization, fixed-duration chunking, result aggregation and running
//! statistics, plus the model catalogue used to locate speech-to-text models.
//!
//! Times are kept in exact integer units throughout: sample counts at the
//! 16 kHz target rate, milliseconds for wall-clock durations, and the
//! engine's native centiseconds for segment timestamps. Normalized audio
//! samples are carried as the raw bit patterns of 32-bit IEEE 754 floats.

pub mod audio;
pub mod config;
pub mod dev;
pub mod error;
pub mod math;
pub mod model;
pub mod pipeline;
pub mod resample;
pub mod whisper;

pub use audio::{AudioChunk, AudioData};
pub use config::TranscriptionConfig;
pub use dev::{Device, SystemInfo};
pub use error::WhisperError;
pub use model::{ModelManager, WhisperModel};
pub use pipeline::{AudioProcessor, BatchNormalizer, SimpleAudioProcessor, StreamPipeline};
pub use whisper::{StreamingChunk, SyncTranscriptionResult, TranscriptionStats};

use vstd::prelude::*;

verus! {

/// The fixed sample rate every stream is normalized to, in Hz.
pub const TARGET_SAMPLE_RATE: u32 = 16000;

} // verus!
