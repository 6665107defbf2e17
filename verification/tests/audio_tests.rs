//! Tests for chunking: coverage, indexing, start times.

use purr_core::audio::{chunk_all, AudioChunk, Chunker, TARGET_CHUNK_SAMPLES};
use purr_core::WhisperError;

fn sample_ramp(n: usize) -> Vec<u32> {
    (0..n as u32).collect()
}

#[test]
fn test_chunk_coverage_with_remainder() {
    // 25 seconds at 16 kHz: two full windows and one 5-second remainder.
    let samples = sample_ramp(400_000);
    let chunks = chunk_all(&samples).unwrap();
    assert_eq!(chunks.len(), 3);
    let mut rebuilt: Vec<u32> = Vec::new();
    for c in &chunks {
        rebuilt.extend_from_slice(&c.samples);
    }
    assert_eq!(rebuilt, samples);
    assert_eq!(chunks[0].samples.len(), TARGET_CHUNK_SAMPLES);
    assert_eq!(chunks[1].samples.len(), TARGET_CHUNK_SAMPLES);
    assert_eq!(chunks[2].samples.len(), 400_000 % TARGET_CHUNK_SAMPLES);
}

#[test]
fn test_chunk_coverage_exact_multiple() {
    let samples = sample_ramp(2 * TARGET_CHUNK_SAMPLES);
    let chunks = chunk_all(&samples).unwrap();
    assert_eq!(chunks.len(), 2);
    assert_eq!(chunks[1].samples.len(), TARGET_CHUNK_SAMPLES);
    assert!(chunks[1].is_final);
    assert!(!chunks[0].is_final);
}

#[test]
fn test_chunk_indexing() {
    let samples = sample_ramp(400_000);
    let chunks = chunk_all(&samples).unwrap();
    for (i, c) in chunks.iter().enumerate() {
        assert_eq!(c.index, i);
        assert_eq!(c.is_final, i == chunks.len() - 1);
        assert_eq!(c.sample_rate, 16000);
    }
}

#[test]
fn test_chunk_start_times() {
    let samples = sample_ramp(400_000);
    let chunks = chunk_all(&samples).unwrap();
    for (i, c) in chunks.iter().enumerate() {
        assert_eq!(c.start_sample, (i * TARGET_CHUNK_SAMPLES) as u64);
        let start_seconds = c.start_sample as f64 / 16000.0;
        assert_eq!(start_seconds, i as f64 * 10.0);
        assert_eq!(c.start_cs(), i as u64 * 1000);
        if !c.is_final {
            assert_eq!(c.duration_ms(), 10_000);
        }
    }
}

#[test]
fn test_chunk_all_empty_is_fatal() {
    let samples: Vec<u32> = Vec::new();
    match chunk_all(&samples) {
        Err(WhisperError::AudioProcessing(_)) => {}
        other => panic!("expected an audio-processing error, got {:?}", other),
    }
}

#[test]
fn test_chunker_incremental() {
    let mut chunker = Chunker::new();
    let mut emitted: Vec<AudioChunk> = Vec::new();
    // Push 9 times 50,000 samples: 450,000 in all.
    for k in 0..9u32 {
        let batch: Vec<u32> = (0..50_000u32).map(|i| k * 50_000 + i).collect();
        emitted.extend(chunker.push(&batch));
    }
    let last = chunker.finish().unwrap();
    assert_eq!(emitted.len(), 2);
    let final_chunk = last.expect("a remainder of 130,000 samples is pending");
    assert_eq!(final_chunk.samples.len(), 450_000 - 2 * TARGET_CHUNK_SAMPLES);
    assert!(final_chunk.is_final);
    assert_eq!(final_chunk.index, 2);
    let mut rebuilt: Vec<u32> = Vec::new();
    for c in &emitted {
        rebuilt.extend_from_slice(&c.samples);
    }
    rebuilt.extend_from_slice(&final_chunk.samples);
    let expected: Vec<u32> = (0..450_000u32).collect();
    assert_eq!(rebuilt, expected);
}

#[test]
fn test_chunker_exact_end_emits_no_empty_final() {
    let mut chunker = Chunker::new();
    let batch = sample_ramp(TARGET_CHUNK_SAMPLES);
    let emitted = chunker.push(&batch);
    assert_eq!(emitted.len(), 1);
    assert!(chunker.finish().unwrap().is_none());
}

#[test]
fn test_audio_chunk_new() {
    let c = AudioChunk::new(vec![1, 2, 3], 4, 640_000, true);
    assert_eq!(c.samples, vec![1, 2, 3]);
    assert_eq!(c.sample_rate, 16000);
    assert_eq!(c.index, 4);
    assert_eq!(c.start_sample, 640_000);
    assert!(c.is_final);
}
