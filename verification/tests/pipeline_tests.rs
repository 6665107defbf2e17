//! End-to-end scenarios through the producer sessions and the aggregator.

use purr_core::audio::TARGET_CHUNK_SAMPLES;
use purr_core::pipeline::{BatchNormalizer, DecodeError, StreamPipeline};
use purr_core::resample::{FrameRoute, RawFrame, SampleData, SampleFormat};
use purr_core::whisper::StreamAggregator;
use purr_core::WhisperError;

fn silence_frame(samples: usize) -> RawFrame {
    RawFrame {
        data: SampleData::Float32(vec![0.0f32.to_bits(); samples]),
        format: SampleFormat::Float32 { planar: false },
        channels: 1,
        channel_layout: 4,
        rate: 16000,
    }
}

#[test]
fn test_end_to_end_batch_silence() {
    // 25 seconds of 16 kHz mono silence through the batch path.
    let mut session = BatchNormalizer::new();
    for _ in 0..100 {
        let frame = silence_frame(4_000);
        assert_eq!(session.route_frame(&frame), FrameRoute::FastPath);
        session.push_fast_frame(&frame);
    }
    let data = session.finish().expect("silence still is audio");
    assert_eq!(data.samples.len(), 400_000);
    assert_eq!(data.sample_rate, 16000);
    assert_eq!(data.samples.len() as f64 / data.sample_rate as f64, 25.0);
    assert_eq!(data.duration_ms(), 25_000);
}

#[test]
fn test_end_to_end_streaming_silence() {
    // The same 25 seconds through the streaming path: three chunks of
    // 10 s, 10 s and 5 s, the third carrying the final statistics.
    let mut session = StreamPipeline::new();
    let mut chunks = Vec::new();
    for _ in 0..100 {
        let frame = silence_frame(4_000);
        assert_eq!(session.route_frame(&frame), FrameRoute::FastPath);
        chunks.extend(session.push_fast_frame(&frame));
    }
    if let Some(last) = session.finish().unwrap() {
        chunks.push(last);
    }
    assert_eq!(chunks.len(), 3);
    assert_eq!(chunks[0].samples.len(), TARGET_CHUNK_SAMPLES);
    assert_eq!(chunks[1].samples.len(), TARGET_CHUNK_SAMPLES);
    assert_eq!(chunks[2].samples.len(), 80_000);
    assert!(chunks[2].is_final);

    let mut agg = StreamAggregator::new();
    let mut outputs = Vec::new();
    for c in &chunks {
        outputs.push(agg.absorb_chunk(
            c.index,
            c.start_sample,
            c.samples.len(),
            c.is_final,
            &Vec::new(),
            2_500,
        ));
    }
    assert_eq!(outputs.len(), 3);
    assert!(outputs[0].final_stats.is_none());
    assert!(outputs[1].final_stats.is_none());
    let stats = outputs[2].final_stats.clone().expect("stats on the final chunk");
    assert_eq!(stats.audio_duration_ms as f64 / 1000.0, 25.0);
    // Chunk durations in seconds: 10, 10, 5.
    assert_eq!((outputs[0].end_cs - outputs[0].start_cs) as f64 / 100.0, 10.0);
    assert_eq!((outputs[1].end_cs - outputs[1].start_cs) as f64 / 100.0, 10.0);
    assert_eq!((outputs[2].end_cs - outputs[2].start_cs) as f64 / 100.0, 5.0);
}

#[test]
fn test_corrupt_packet_resilience() {
    // One corrupt packet among valid ones: the stream still yields a
    // non-empty result.
    let mut session = BatchNormalizer::new();
    let packets = vec![
        Ok(silence_frame(1_000)),
        Err(DecodeError::InvalidData),
        Ok(silence_frame(1_000)),
    ];
    for packet in packets {
        match packet {
            Ok(frame) => {
                if session.route_frame(&frame) == FrameRoute::FastPath {
                    session.push_fast_frame(&frame);
                }
            }
            Err(e) => {
                // The corrupt packet is skipped; anything else would
                // abort the stream.
                assert!(e.is_recoverable());
            }
        }
    }
    let data = session.finish().expect("the valid packets still decode");
    assert_eq!(data.samples.len(), 2_000);
}

#[test]
fn test_stream_level_failure_is_fatal() {
    let corrupt = DecodeError::InvalidData;
    let fatal = DecodeError::Stream("failed to send packet to decoder".to_string());
    assert!(corrupt.is_recoverable());
    assert!(!fatal.is_recoverable());
}

#[test]
fn test_empty_stream_is_fatal() {
    // Zero samples ever produced: a fatal audio-processing error, both
    // in batch and in streaming mode.
    let batch = BatchNormalizer::new();
    match batch.finish() {
        Err(WhisperError::AudioProcessing(_)) => {}
        other => panic!("expected an audio-processing error, got {:?}", other),
    }
    let stream = StreamPipeline::new();
    match stream.finish() {
        Err(WhisperError::AudioProcessing(_)) => {}
        other => panic!("expected an audio-processing error, got {:?}", other),
    }
}

#[test]
fn test_conversion_failure_drops_one_frame() {
    // A failed conversion drops that frame's output and nothing else.
    let mut session = BatchNormalizer::new();
    let good = silence_frame(500);
    session.route_frame(&good);
    session.push_fast_frame(&good);
    session.conversion_failed();
    session.route_frame(&good);
    session.push_fast_frame(&good);
    let data = session.finish().unwrap();
    assert_eq!(data.samples.len(), 1_000);
}

#[test]
fn test_audio_processor_creation() {
    let processor = purr_core::AudioProcessor::new();
    assert!(!processor.is_initialized());
}

#[test]
fn test_simple_audio_parse() {
    let processor = purr_core::SimpleAudioProcessor::new();
    let mut raw: Vec<u8> = Vec::new();
    raw.extend_from_slice(&1.0f32.to_le_bytes());
    raw.extend_from_slice(&(-0.5f32).to_le_bytes());
    let data = processor.parse_f32le_bytes(&raw).unwrap();
    assert_eq!(data.samples.len(), 2);
    assert_eq!(f32::from_bits(data.samples[0]), 1.0);
    assert_eq!(f32::from_bits(data.samples[1]), -0.5);

    let bad = vec![0u8; 7];
    match processor.parse_f32le_bytes(&bad) {
        Err(WhisperError::AudioProcessing(_)) => {}
        other => panic!("expected an audio-processing error, got {:?}", other),
    }
}
