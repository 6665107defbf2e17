//! Tests for the transcription configuration.

use purr_core::TranscriptionConfig;

#[test]
fn test_transcription_config() {
    let config = TranscriptionConfig::new()
        .with_language("en".to_string())
        .with_gpu(false)
        .with_threads(2)
        .with_sample_rate(16000);

    assert_eq!(config.language, Some("en".to_string()));
    assert!(!config.use_gpu);
    assert_eq!(config.num_threads, Some(2));
    assert_eq!(config.sample_rate, 16000);
}

#[test]
fn test_config_defaults() {
    let config = TranscriptionConfig::default();

    assert!(config.model_path.is_none());
    assert!(config.language.is_none());
    assert!(config.use_gpu);
    assert_eq!(config.sample_rate, 16000);
    assert_eq!(config.temperature_milli, 0);
    assert!(config.output_format.include_timestamps);
    assert!(!config.output_format.word_timestamps);
    assert!(!config.output_format.include_confidence);
}

#[test]
fn test_config_builders() {
    let config = TranscriptionConfig::new()
        .with_model_path("model.bin".to_string())
        .with_verbose(true);
    assert_eq!(config.model_path, Some("model.bin".to_string()));
    assert!(config.verbose);
    assert!(config.language.is_none());
}
