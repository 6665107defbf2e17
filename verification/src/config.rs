//! Per-run transcription configuration.
//!
//! A configuration is immutable for the duration of one run: every component
//! reads it, none mutates it. The engine's sampling temperature is carried in
//! thousandths so that the whole configuration stays in exact integer values.

use vstd::prelude::*;

verus! {

/// Output format options.
#[derive(Debug, Clone, PartialEq, Eq, Structural)]
pub struct OutputFormat {
    /// Include timestamps in the output.
    pub include_timestamps: bool,
    /// Include word-level timestamps.
    pub word_timestamps: bool,
    /// Include confidence scores.
    pub include_confidence: bool,
}

impl Default for OutputFormat {
    fn default() -> (c: Self)
        ensures
            c.include_timestamps,
            !c.word_timestamps,
            !c.include_confidence,
    {
        OutputFormat { include_timestamps: true, word_timestamps: false, include_confidence: false }
    }
}

/// Configuration for transcription operations.
#[derive(Debug, Clone)]
pub struct TranscriptionConfig {
    /// Path to the speech-to-text model file, if chosen explicitly.
    pub model_path: Option<String>,
    /// Language code (e.g., "en", "es", "fr"); absent means auto-detect.
    pub language: Option<String>,
    /// Use GPU acceleration if available.
    pub use_gpu: bool,
    /// Number of threads to use; absent means the system default.
    pub num_threads: Option<usize>,
    /// Audio sample rate to convert to, in Hz.
    pub sample_rate: u32,
    /// Maximum audio duration in milliseconds, if capped.
    pub max_duration_ms: Option<u64>,
    /// Sampling temperature in thousandths (0 = deterministic).
    pub temperature_milli: u32,
    /// Beam size for beam search, if beam search is used.
    pub beam_size: Option<usize>,
    /// Output format options.
    pub output_format: OutputFormat,
    /// Enable verbose debug output.
    pub verbose: bool,
}

/// What every field of a freshly made configuration holds.
pub open spec fn is_default_config(c: TranscriptionConfig) -> bool {
    &&& c.model_path is None
    &&& c.language is None
    &&& c.use_gpu
    &&& c.num_threads is None
    &&& c.sample_rate == 16000
    &&& c.max_duration_ms is None
    &&& c.temperature_milli == 0
    &&& c.beam_size is None
    &&& c.output_format.include_timestamps
    &&& !c.output_format.word_timestamps
    &&& !c.output_format.include_confidence
    &&& !c.verbose
}

impl Default for TranscriptionConfig {
    fn default() -> (c: Self)
        ensures
            is_default_config(c),
    {
        TranscriptionConfig {
            model_path: None,
            language: None,
            use_gpu: true,
            num_threads: None,
            sample_rate: 16000,
            max_duration_ms: None,
            temperature_milli: 0,
            beam_size: None,
            output_format: Default::default(),
            verbose: false,
        }
    }
}

impl TranscriptionConfig {
    /// Create a new configuration with default values.
    pub fn new() -> (c: Self)
        ensures
            is_default_config(c),
    {
        Default::default()
    }

    /// Set the model path.
    pub fn with_model_path(self, path: String) -> (c: Self)
        ensures
            c == (TranscriptionConfig { model_path: Some(path), ..self }),
    {
        TranscriptionConfig { model_path: Some(path), ..self }
    }

    /// Set the language.
    pub fn with_language(self, language: String) -> (c: Self)
        ensures
            c == (TranscriptionConfig { language: Some(language), ..self }),
    {
        TranscriptionConfig { language: Some(language), ..self }
    }

    /// Enable or disable GPU acceleration.
    pub fn with_gpu(self, use_gpu: bool) -> (c: Self)
        ensures
            c == (TranscriptionConfig { use_gpu, ..self }),
    {
        TranscriptionConfig { use_gpu, ..self }
    }

    /// Set the number of threads.
    pub fn with_threads(self, threads: usize) -> (c: Self)
        ensures
            c == (TranscriptionConfig { num_threads: Some(threads), ..self }),
    {
        TranscriptionConfig { num_threads: Some(threads), ..self }
    }

    /// Set the sample rate.
    pub fn with_sample_rate(self, rate: u32) -> (c: Self)
        ensures
            c == (TranscriptionConfig { sample_rate: rate, ..self }),
    {
        TranscriptionConfig { sample_rate: rate, ..self }
    }

    /// Enable or disable verbose output.
    pub fn with_verbose(self, verbose: bool) -> (c: Self)
        ensures
            c == (TranscriptionConfig { verbose, ..self }),
    {
        TranscriptionConfig { verbose, ..self }
    }
}

} // verus!
