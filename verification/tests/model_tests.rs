//! Tests for the model catalogue.

use std::str::FromStr;

use purr_core::WhisperModel;

#[test]
fn test_model_parsing() {
    assert_eq!(WhisperModel::from_str("base"), Ok(WhisperModel::Base));
    assert_eq!(WhisperModel::from_str("base.en"), Ok(WhisperModel::BaseEn));
    let invalid = WhisperModel::from_str("invalid_model");
    assert!(invalid.is_err(), "Expected an error but got: {:?}", invalid);
}

#[test]
fn test_model_filename() {
    assert_eq!(WhisperModel::Base.filename(), "ggml-base.bin");
    assert_eq!(
        WhisperModel::LargeV3Turbo.filename(),
        "ggml-large-v3-turbo.bin"
    );
}

#[test]
fn test_model_description() {
    assert!(WhisperModel::Base.description().contains("142 MB"));
    assert!(WhisperModel::Tiny.description().contains("fastest"));
}

#[test]
fn test_model_name_roundtrip() {
    for model in WhisperModel::all_models() {
        assert_eq!(WhisperModel::from_str(model.as_str()), Ok(model));
    }
}

#[test]
fn test_model_catalogue_size() {
    assert_eq!(WhisperModel::all_models().len(), 30);
    assert_eq!(WhisperModel::Base.size(), 142 * 1024 * 1024);
    assert_eq!(WhisperModel::Tiny.size(), 39 * 1024 * 1024);
}

#[test]
fn test_model_url() {
    assert_eq!(
        WhisperModel::Base.url(),
        "https://huggingface.co/ggerganov/whisper.cpp/resolve/main/ggml-base.bin"
    );
    assert_eq!(
        WhisperModel::SmallEnTdrz.url(),
        "https://huggingface.co/akashmjn/tinydiarize-whisper.cpp/resolve/main/ggml-small.en-tdrz.bin"
    );
}

#[test]
fn test_model_manager_paths() {
    let manager = purr_core::ModelManager::from_dir("/tmp/models".to_string());
    assert_eq!(manager.models_dir(), "/tmp/models");
    assert_eq!(
        manager.get_model_path(WhisperModel::Base),
        "/tmp/models/ggml-base.bin"
    );
    let mut config = purr_core::TranscriptionConfig::new();
    manager.assign_model_path(&mut config, WhisperModel::Tiny);
    assert_eq!(
        config.model_path,
        Some("/tmp/models/ggml-tiny.bin".to_string())
    );
}
