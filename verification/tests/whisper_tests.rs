//! Tests for statistics and result aggregation.

use purr_core::whisper::{
    assemble_result, collect_segments, count_words, RawSegment, StreamAggregator,
    TranscriptionStats,
};

#[test]
fn test_statistics_computation() {
    // 2 s processing, 10 s audio, 5 segments, 20 words.
    let stats = TranscriptionStats::new(2_000, 10_000, 5, 20);
    assert_eq!(stats.real_time_factor_milli as f64 / 1000.0, 5.0);
    assert_eq!(stats.avg_segment_length_ms as f64 / 1000.0, 2.0);
    assert_eq!(stats.words_per_minute_milli as f64 / 1000.0, 120.0);
    assert_eq!(stats.processing_time_ms, 2_000);
    assert_eq!(stats.audio_duration_ms, 10_000);
    assert_eq!(stats.segment_count, 5);
    assert_eq!(stats.word_count, 20);
}

#[test]
fn test_zero_duration_safety() {
    let stats = TranscriptionStats::new(0, 10_000, 5, 20);
    assert_eq!(stats.real_time_factor_milli, 0);

    let stats = TranscriptionStats::new(2_000, 0, 5, 20);
    assert_eq!(stats.words_per_minute_milli, 0);
    assert_eq!(stats.avg_segment_length_ms, 0);

    let stats = TranscriptionStats::new(2_000, 10_000, 0, 20);
    assert_eq!(stats.avg_segment_length_ms, 0);
}

#[test]
fn test_count_words() {
    assert_eq!(count_words(""), 0);
    assert_eq!(count_words("   "), 0);
    assert_eq!(count_words("hello"), 1);
    assert_eq!(count_words("Hello world"), 2);
    assert_eq!(count_words("  one\ttwo\nthree  "), 3);
    assert_eq!(count_words("a b c d"), 4);
}

fn seg(text: &str, start_cs: i64, end_cs: i64) -> RawSegment {
    RawSegment {
        text: Some(text.to_string()),
        start_cs,
        end_cs,
    }
}

#[test]
fn test_collect_segments_skips_failed_text() {
    let raw = vec![
        seg(" Hello", 0, 120),
        RawSegment { text: None, start_cs: 120, end_cs: 200 },
        seg(" world", 200, 300),
    ];
    let (text, segments) = collect_segments(&raw);
    assert_eq!(text, " Hello world");
    assert_eq!(segments.len(), 2);
    assert_eq!(segments[0].text, " Hello");
    assert_eq!(segments[0].start_cs, 0);
    assert_eq!(segments[0].end_cs, 120);
    assert_eq!(segments[1].text, " world");
    assert!(segments[1].confidence_milli.is_none());
    assert!(segments[1].words.is_none());
}

#[test]
fn test_assemble_result() {
    let raw = vec![seg(" Hello", 0, 150), seg(" world", 150, 300)];
    // 3 seconds of audio at 16 kHz, 1.5 s of processing.
    let result = assemble_result(&raw, Some("en".to_string()), 1_500, 48_000);
    assert_eq!(result.text, " Hello world");
    assert_eq!(result.language, Some("en".to_string()));
    assert_eq!(result.segments.len(), 2);
    assert_eq!(result.processing_time_ms, 1_500);
    assert_eq!(result.audio_duration_ms, 3_000);
    assert_eq!(result.stats.segment_count, 2);
    assert_eq!(result.stats.word_count, 2);
    assert_eq!(result.stats.real_time_factor_milli, 2_000);
}

#[test]
fn test_aggregator_absolute_times_and_totals() {
    let mut agg = StreamAggregator::new();
    // First chunk: 10 s starting at 0.
    let c0 = agg.absorb_chunk(0, 0, 160_000, false, &vec![seg(" one two", 0, 900)], 500);
    assert_eq!(c0.chunk_index, 0);
    assert_eq!(c0.start_cs, 0);
    assert_eq!(c0.end_cs, 1_000);
    assert_eq!(c0.text, " one two");
    assert!(!c0.is_final);
    assert!(c0.final_stats.is_none());

    // Final chunk: 5 s starting at 10 s.
    let c1 = agg.absorb_chunk(1, 160_000, 80_000, true, &vec![seg(" three", 0, 400)], 3_000);
    assert_eq!(c1.chunk_index, 1);
    assert_eq!(c1.start_cs, 1_000);
    assert_eq!(c1.end_cs, 1_500);
    assert!(c1.is_final);
    let stats = c1.final_stats.expect("final chunk carries the stats");
    assert_eq!(stats.audio_duration_ms, 15_000);
    assert_eq!(stats.segment_count, 2);
    assert_eq!(stats.word_count, 3);
    assert_eq!(stats.processing_time_ms, 3_000);
    assert_eq!(stats.real_time_factor_milli, 5_000);
}

#[test]
fn test_aggregator_counts_failed_segments_but_not_their_words() {
    let mut agg = StreamAggregator::new();
    let segs = vec![
        seg(" counted", 0, 100),
        RawSegment { text: None, start_cs: 100, end_cs: 200 },
    ];
    let c = agg.absorb_chunk(0, 0, 160_000, true, &segs, 1_000);
    let stats = c.final_stats.unwrap();
    // Both segments count; only the retrievable text contributes words.
    assert_eq!(stats.segment_count, 2);
    assert_eq!(stats.word_count, 1);
}
