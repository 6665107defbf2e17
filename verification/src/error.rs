//! Error taxonomy for the library.
//!
//! Packet- and frame-level failures are absorbed by the pipeline itself;
//! the variants here describe the stream-level failures that reach a caller,
//! plus the recoverable kinds that internal components report upward.

use vstd::prelude::*;

verus! {

/// Main error type for transcription operations.
#[derive(Debug, Clone)]
pub enum WhisperError {
    /// File missing, unsupported or empty audio, buffer invariant violations.
    AudioProcessing(String),
    /// Failure reported by the speech-to-text engine itself.
    Whisper(String),
    /// An I/O failure, carried as its rendered message.
    Io(String),
    /// Container/codec failure from the decode capability.
    FFmpeg(String),
    /// No usable model or configuration could be resolved.
    Configuration(String),
    /// Inference-call or result-extraction failure.
    Transcription(String),
    /// GPU acceleration failure.
    GpuAcceleration(String),
    /// Anything that fits no other kind.
    Unknown(String),
}

impl PartialEq for WhisperError {
    fn eq(&self, other: &Self) -> (r: bool) {
        match (self, other) {
            (WhisperError::AudioProcessing(a), WhisperError::AudioProcessing(b)) => a.eq(b),
            (WhisperError::Whisper(a), WhisperError::Whisper(b)) => a.eq(b),
            (WhisperError::Io(a), WhisperError::Io(b)) => a.eq(b),
            (WhisperError::FFmpeg(a), WhisperError::FFmpeg(b)) => a.eq(b),
            (WhisperError::Configuration(a), WhisperError::Configuration(b)) => a.eq(b),
            (WhisperError::Transcription(a), WhisperError::Transcription(b)) => a.eq(b),
            (WhisperError::GpuAcceleration(a), WhisperError::GpuAcceleration(b)) => a.eq(b),
            (WhisperError::Unknown(a), WhisperError::Unknown(b)) => a.eq(b),
            _ => false,
        }
    }
}

impl vstd::std_specs::cmp::PartialEqSpecImpl for WhisperError {
    open spec fn obeys_eq_spec() -> bool {
        true
    }

    open spec fn eq_spec(&self, other: &Self) -> bool {
        match (self, other) {
            (WhisperError::AudioProcessing(a), WhisperError::AudioProcessing(b)) => a@ == b@,
            (WhisperError::Whisper(a), WhisperError::Whisper(b)) => a@ == b@,
            (WhisperError::Io(a), WhisperError::Io(b)) => a@ == b@,
            (WhisperError::FFmpeg(a), WhisperError::FFmpeg(b)) => a@ == b@,
            (WhisperError::Configuration(a), WhisperError::Configuration(b)) => a@ == b@,
            (WhisperError::Transcription(a), WhisperError::Transcription(b)) => a@ == b@,
            (WhisperError::GpuAcceleration(a), WhisperError::GpuAcceleration(b)) => a@ == b@,
            (WhisperError::Unknown(a), WhisperError::Unknown(b)) => a@ == b@,
            _ => false,
        }
    }
}

} // verus!
