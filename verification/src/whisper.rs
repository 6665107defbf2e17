//! Transcription results, running statistics, and result aggregation.
//!
//! Wall-clock durations are in milliseconds; segment timestamps are in the
//! engine's native centiseconds. Ratios (real-time factor, words per minute)
//! are carried in thousandths so that every statistic is an exact integer.

use vstd::prelude::*;
use vstd::string::{StringExecFns, StringSliceAdditionalSpecFns};
use vstd::utf8::encode_utf8;

use crate::audio::MAX_STREAM_SAMPLES;

verus! {

/// Upper bound on any duration fed to the statistics, in milliseconds.
/// Keeps every derived product inside `u64`.
pub const MAX_STAT_TIME_MS: u64 = 0x1000_0000_0000;

/// Upper bound on segment and word counts fed to the statistics.
pub const MAX_STAT_COUNT: u64 = 0x1_0000_0000;

/// Transcription statistics, computed once at stream completion.
#[derive(Debug, Clone, PartialEq, Eq, Structural)]
pub struct TranscriptionStats {
    /// Total processing time in milliseconds.
    pub processing_time_ms: u64,
    /// Audio duration in milliseconds.
    pub audio_duration_ms: u64,
    /// Real-time factor (audio duration / processing time) in thousandths;
    /// 0 when the processing time is 0.
    pub real_time_factor_milli: u64,
    /// Number of segments produced.
    pub segment_count: u64,
    /// Average segment length in milliseconds; 0 when there are no segments.
    pub avg_segment_length_ms: u64,
    /// Total number of words (estimated).
    pub word_count: u64,
    /// Words per minute in thousandths; 0 when the audio duration is 0.
    pub words_per_minute_milli: u64,
}

/// The real-time factor in thousandths, as an exact integer formula.
pub open spec fn spec_real_time_factor_milli(processing_time_ms: u64, audio_duration_ms: u64) -> int {
    if processing_time_ms > 0 {
        audio_duration_ms * 1000 / processing_time_ms as int
    } else {
        0
    }
}

/// The average segment length in milliseconds, as an exact integer formula.
pub open spec fn spec_avg_segment_length_ms(audio_duration_ms: u64, segment_count: u64) -> int {
    if segment_count > 0 {
        audio_duration_ms as int / segment_count as int
    } else {
        0
    }
}

/// Words per minute in thousandths, as an exact integer formula.
pub open spec fn spec_words_per_minute_milli(audio_duration_ms: u64, word_count: u64) -> int {
    if audio_duration_ms > 0 {
        word_count * 60_000_000 / audio_duration_ms as int
    } else {
        0
    }
}

/// The statistics snapshot for the given totals, every ratio an exact
/// integer formula.
pub open spec fn spec_stats(
    processing_time_ms: u64,
    audio_duration_ms: u64,
    segment_count: u64,
    word_count: u64,
) -> TranscriptionStats {
    TranscriptionStats {
        processing_time_ms,
        audio_duration_ms,
        real_time_factor_milli: spec_real_time_factor_milli(
            processing_time_ms,
            audio_duration_ms,
        ) as u64,
        segment_count,
        avg_segment_length_ms: spec_avg_segment_length_ms(audio_duration_ms, segment_count) as u64,
        word_count,
        words_per_minute_milli: spec_words_per_minute_milli(audio_duration_ms, word_count) as u64,
    }
}

impl TranscriptionStats {
    /// Compute the statistics snapshot from the run's totals.
    ///
    /// A zero processing time or audio duration yields a zero ratio rather
    /// than a division by zero.
    pub fn new(
        processing_time_ms: u64,
        audio_duration_ms: u64,
        segment_count: u64,
        word_count: u64,
    ) -> (s: Self)
        requires
            processing_time_ms <= MAX_STAT_TIME_MS,
            audio_duration_ms <= MAX_STAT_TIME_MS,
            segment_count <= MAX_STAT_COUNT,
            word_count <= MAX_STAT_COUNT,
        ensures
            s.processing_time_ms == processing_time_ms,
            s.audio_duration_ms == audio_duration_ms,
            s.segment_count == segment_count,
            s.word_count == word_count,
            s.real_time_factor_milli == spec_real_time_factor_milli(
                processing_time_ms,
                audio_duration_ms,
            ),
            s.avg_segment_length_ms == spec_avg_segment_length_ms(
                audio_duration_ms,
                segment_count,
            ),
            s.words_per_minute_milli == spec_words_per_minute_milli(audio_duration_ms, word_count),
            s == spec_stats(processing_time_ms, audio_duration_ms, segment_count, word_count),
    {
        let real_time_factor_milli: u64 = if processing_time_ms > 0 {
            audio_duration_ms * 1000 / processing_time_ms
        } else {
            0
        };
        let avg_segment_length_ms: u64 = if segment_count > 0 {
            audio_duration_ms / segment_count
        } else {
            0
        };
        let words_per_minute_milli: u64 = if audio_duration_ms > 0 {
            word_count * 60_000_000 / audio_duration_ms
        } else {
            0
        };
        TranscriptionStats {
            processing_time_ms,
            audio_duration_ms,
            real_time_factor_milli,
            segment_count,
            avg_segment_length_ms,
            word_count,
            words_per_minute_milli,
        }
    }
}

/// Word-level timestamp information.
#[derive(Debug, Clone)]
pub struct WordTimestamp {
    /// The word.
    pub word: String,
    /// Start time in centiseconds.
    pub start_cs: i64,
    /// End time in centiseconds.
    pub end_cs: i64,
    /// Confidence score in thousandths, if available.
    pub confidence_milli: Option<u32>,
}

/// A transcription segment with timestamps.
#[derive(Debug, Clone)]
pub struct TranscriptionSegment {
    /// Segment text.
    pub text: String,
    /// Start time in centiseconds.
    pub start_cs: i64,
    /// End time in centiseconds.
    pub end_cs: i64,
    /// Confidence score in thousandths, if available.
    pub confidence_milli: Option<u32>,
    /// Word-level timestamps, if requested.
    pub words: Option<Vec<WordTimestamp>>,
}

/// One segment as handed back by the speech-to-text engine: its start and
/// end offsets, and its text, absent when the engine could not hand the
/// text out (such a segment is skipped, not fatal).
#[derive(Debug, Clone)]
pub struct RawSegment {
    /// Segment text, or `None` when text retrieval failed.
    pub text: Option<String>,
    /// Start time in centiseconds, relative to the inferred buffer.
    pub start_cs: i64,
    /// End time in centiseconds, relative to the inferred buffer.
    pub end_cs: i64,
}

/// Transcription result of one batch run.
#[derive(Debug, Clone)]
pub struct SyncTranscriptionResult {
    /// The transcribed text.
    pub text: String,
    /// Language detected (if auto-detection was used).
    pub language: Option<String>,
    /// Segments with timestamps.
    pub segments: Vec<TranscriptionSegment>,
    /// Processing time in milliseconds.
    pub processing_time_ms: u64,
    /// Audio duration in milliseconds.
    pub audio_duration_ms: u64,
    /// Transcription statistics.
    pub stats: TranscriptionStats,
}

/// Streaming transcription chunk, the outward-facing unit of incremental
/// results. Times are absolute offsets into the stream.
#[derive(Debug, Clone)]
pub struct StreamingChunk {
    /// Chunk text.
    pub text: String,
    /// Start time in centiseconds, absolute.
    pub start_cs: i64,
    /// End time in centiseconds, absolute.
    pub end_cs: i64,
    /// Whether this is the final chunk of the stream.
    pub is_final: bool,
    /// Chunk index.
    pub chunk_index: usize,
    /// Final statistics, present only on the chunk emitted while
    /// processing the final audio chunk.
    pub final_stats: Option<TranscriptionStats>,
}

/// Whether a byte is ASCII whitespace (space, tab, line feed, vertical
/// tab, form feed, carriage return).
pub open spec fn is_ascii_ws(b: u8) -> bool {
    b == 32 || b == 9 || b == 10 || b == 11 || b == 12 || b == 13
}

/// Whether a word starts at position `i`: a non-whitespace byte at the
/// start of the stream or right after a whitespace byte.
pub open spec fn word_starts_at(bs: Seq<u8>, i: int) -> bool {
    &&& 0 <= i < bs.len()
    &&& !is_ascii_ws(bs[i])
    &&& (i == 0 || is_ascii_ws(bs[i - 1]))
}

/// How many words start before position `n`.
pub open spec fn word_count_upto(bs: Seq<u8>, n: int) -> int
    decreases n,
{
    if n <= 0 {
        0
    } else {
        word_count_upto(bs, n - 1) + if word_starts_at(bs, n - 1) {
            1int
        } else {
            0int
        }
    }
}

/// The number of words in a byte stream: maximal runs of bytes that are
/// not ASCII whitespace.
pub open spec fn spec_word_count(bs: Seq<u8>) -> int {
    word_count_upto(bs, bs.len() as int)
}

/// Whether a byte is ASCII whitespace.
fn is_ws_byte(b: u8) -> (r: bool)
    ensures
        r == is_ascii_ws(b),
{
    b == 32 || b == 9 || b == 10 || b == 11 || b == 12 || b == 13
}

/// Count the words of a string: maximal runs of UTF-8 bytes that are not
/// ASCII whitespace (the whitespace-splitting word estimate).
pub fn count_words(s: &str) -> (n: usize)
    ensures
        n as int == spec_word_count(s.spec_bytes()),
{
    let bs: &[u8] = s.as_bytes();
    let len: usize = bs.len();
    let mut n: usize = 0;
    let mut i: usize = 0;
    while i < len
        invariant
            bs@ == s.spec_bytes(),
            len == bs@.len(),
            i <= len,
            n as int == word_count_upto(bs@, i as int),
            n <= i,
        decreases len - i,
    {
        let ws = is_ws_byte(bs[i]);
        let prev_ws: bool = if i == 0 {
            true
        } else {
            is_ws_byte(bs[i - 1])
        };
        if !ws && prev_ws {
            n = n + 1;
        }
        i = i + 1;
    }
    n
}

/// The concatenation of the texts of the segments whose text the engine
/// handed out, in order.
pub open spec fn spec_kept_text(segs: Seq<RawSegment>) -> Seq<char>
    decreases segs.len(),
{
    if segs.len() == 0 {
        Seq::empty()
    } else {
        spec_kept_text(segs.drop_last()) + match segs.last().text {
            Option::Some(t) => t@,
            Option::None => Seq::empty(),
        }
    }
}

/// The segments whose text the engine handed out, in order, as
/// timestamped transcription segments.
pub open spec fn spec_kept_segments(segs: Seq<RawSegment>) -> Seq<TranscriptionSegment>
    decreases segs.len(),
{
    if segs.len() == 0 {
        Seq::empty()
    } else {
        let rest = spec_kept_segments(segs.drop_last());
        match segs.last().text {
            Option::Some(t) => rest.push(
                TranscriptionSegment {
                    text: t,
                    start_cs: segs.last().start_cs,
                    end_cs: segs.last().end_cs,
                    confidence_milli: None,
                    words: None,
                },
            ),
            Option::None => rest,
        }
    }
}

/// Every kept segment starts no later than `bound` when every raw
/// segment does.
proof fn lemma_kept_starts_bounded(segs: Seq<RawSegment>, bound: i64)
    requires
        forall|i: int| 0 <= i < segs.len() ==> (#[trigger] segs[i]).start_cs <= bound,
    ensures
        forall|k: int|
            0 <= k < spec_kept_segments(segs).len() ==> (#[trigger] spec_kept_segments(
                segs,
            )[k]).start_cs <= bound,
    decreases segs.len(),
{
    if segs.len() > 0 {
        assert(forall|i: int|
            0 <= i < segs.drop_last().len() ==> (#[trigger] segs.drop_last()[i]).start_cs
                <= bound);
        lemma_kept_starts_bounded(segs.drop_last(), bound);
        assert(segs.last() == segs[segs.len() - 1]);
    }
}

/// Callers see segments in non-decreasing time order: when the engine's
/// raw segments are ordered by start time, so are the kept segments —
/// skipping the segments whose text failed preserves the order.
pub proof fn lemma_kept_segments_order(segs: Seq<RawSegment>)
    requires
        forall|i: int, j: int|
            0 <= i <= j < segs.len() ==> (#[trigger] segs[i]).start_cs <= (
            #[trigger] segs[j]).start_cs,
    ensures
        forall|i: int, j: int|
            0 <= i <= j < spec_kept_segments(segs).len() ==> (#[trigger] spec_kept_segments(
                segs,
            )[i]).start_cs <= (#[trigger] spec_kept_segments(segs)[j]).start_cs,
    decreases segs.len(),
{
    if segs.len() > 0 {
        let prefix = segs.drop_last();
        assert(forall|i: int, j: int|
            0 <= i <= j < prefix.len() ==> (#[trigger] prefix[i]).start_cs <= (
            #[trigger] prefix[j]).start_cs) by {
            assert(forall|i: int| 0 <= i < prefix.len() ==> prefix[i] == segs[i]);
        }
        lemma_kept_segments_order(prefix);
        let last = segs[segs.len() - 1];
        assert(forall|i: int| 0 <= i < prefix.len() ==> (#[trigger] prefix[i]).start_cs
            <= last.start_cs) by {
            assert(forall|i: int| 0 <= i < prefix.len() ==> prefix[i] == segs[i]);
        }
        lemma_kept_starts_bounded(prefix, last.start_cs);
        assert(segs.last() == last);
    }
}

/// Skipped segments only ever shrink the result.
pub proof fn lemma_kept_segments_count(segs: Seq<RawSegment>)
    ensures
        spec_kept_segments(segs).len() <= segs.len(),
    decreases segs.len(),
{
    if segs.len() > 0 {
        lemma_kept_segments_count(segs.drop_last());
    }
}

/// Concatenate the texts of the segments whose text is present, in order.
pub fn kept_text(raw: &Vec<RawSegment>) -> (text: String)
    ensures
        text@ == spec_kept_text(raw@),
{
    let mut text = String::new();
    let mut i: usize = 0;
    while i < raw.len()
        invariant
            i <= raw@.len(),
            text@ == spec_kept_text(raw@.take(i as int)),
        decreases raw@.len() - i,
    {
        match &raw[i].text {
            Option::Some(t) => {
                text.append(t.as_str());
            },
            Option::None => {},
        }
        proof {
            assert(raw@.take(i as int + 1).drop_last() =~= raw@.take(i as int));
            assert(raw@.take(i as int + 1).last() == raw@[i as int]);
        }
        i = i + 1;
    }
    proof {
        assert(raw@.take(raw@.len() as int) =~= raw@);
    }
    text
}

/// Collect the engine's raw segments into the full text and the list of
/// timestamped segments, skipping exactly the segments whose text could
/// not be retrieved.
pub fn collect_segments(raw: &Vec<RawSegment>) -> (r: (String, Vec<TranscriptionSegment>))
    ensures
        r.0@ == spec_kept_text(raw@),
        r.1@ == spec_kept_segments(raw@),
{
    let text = kept_text(raw);
    let mut segs: Vec<TranscriptionSegment> = Vec::new();
    let mut i: usize = 0;
    while i < raw.len()
        invariant
            i <= raw@.len(),
            segs@ == spec_kept_segments(raw@.take(i as int)),
        decreases raw@.len() - i,
    {
        match &raw[i].text {
            Option::Some(t) => {
                segs.push(
                    TranscriptionSegment {
                        text: t.clone(),
                        start_cs: raw[i].start_cs,
                        end_cs: raw[i].end_cs,
                        confidence_milli: None,
                        words: None,
                    },
                );
            },
            Option::None => {},
        }
        proof {
            assert(raw@.take(i as int + 1).drop_last() =~= raw@.take(i as int));
            assert(raw@.take(i as int + 1).last() == raw@[i as int]);
        }
        i = i + 1;
    }
    proof {
        assert(raw@.take(raw@.len() as int) =~= raw@);
    }
    (text, segs)
}

/// The consumer-side aggregator of one streaming run: it folds each
/// chunk's inference output into an outward-facing streaming chunk and
/// keeps the running totals from which the final statistics are computed.
pub struct StreamAggregator {
    total_samples: u64,
    total_segments: u64,
    total_words: u64,
}

impl StreamAggregator {
    /// Audio samples aggregated so far.
    pub closed spec fn total_samples(&self) -> u64 {
        self.total_samples
    }

    /// Segments aggregated so far (including those whose text failed).
    pub closed spec fn total_segments(&self) -> u64 {
        self.total_segments
    }

    /// Words aggregated so far.
    pub closed spec fn total_words(&self) -> u64 {
        self.total_words
    }

    /// A fresh aggregator with zero totals.
    pub fn new() -> (r: StreamAggregator)
        ensures
            r.total_samples() == 0,
            r.total_segments() == 0,
            r.total_words() == 0,
    {
        StreamAggregator { total_samples: 0, total_segments: 0, total_words: 0 }
    }

    /// Fold one audio chunk's inference output into the stream: the
    /// chunk-level text is the concatenation of its segments' texts, its
    /// times are absolute offsets, the totals grow by this chunk's
    /// contribution, and — exactly on the final chunk — the statistics
    /// snapshot is attached.
    pub fn absorb_chunk(
        &mut self,
        chunk_index: usize,
        start_sample: u64,
        sample_count: usize,
        is_final: bool,
        segments: &Vec<RawSegment>,
        processing_time_ms: u64,
    ) -> (c: StreamingChunk)
        requires
            start_sample + sample_count <= MAX_STREAM_SAMPLES,
            old(self).total_samples() + sample_count <= MAX_STREAM_SAMPLES,
            old(self).total_segments() + segments@.len() <= MAX_STAT_COUNT,
            old(self).total_words() + spec_word_count(encode_utf8(spec_kept_text(segments@)))
                <= MAX_STAT_COUNT,
            processing_time_ms <= MAX_STAT_TIME_MS,
        ensures
            final(self).total_samples() == old(self).total_samples() + sample_count,
            final(self).total_segments() == old(self).total_segments() + segments@.len(),
            final(self).total_words() == old(self).total_words() + spec_word_count(
                encode_utf8(spec_kept_text(segments@)),
            ),
            c.text@ == spec_kept_text(segments@),
            c.start_cs == start_sample as int / 160,
            c.end_cs == (start_sample + sample_count) as int / 160,
            c.is_final == is_final,
            c.chunk_index == chunk_index,
            c.final_stats == (if is_final {
                Some(
                    spec_stats(
                        processing_time_ms,
                        (final(self).total_samples() as int / 16) as u64,
                        final(self).total_segments(),
                        final(self).total_words(),
                    ),
                )
            } else {
                None::<TranscriptionStats>
            }),
    {
        let text = kept_text(segments);
        let words = count_words(text.as_str());
        self.total_samples = self.total_samples + sample_count as u64;
        self.total_segments = self.total_segments + segments.len() as u64;
        self.total_words = self.total_words + words as u64;
        let final_stats: Option<TranscriptionStats> = if is_final {
            let audio_ms: u64 = self.total_samples / 16;
            proof {
                vstd::arithmetic::div_mod::lemma_div_is_ordered(
                    self.total_samples as int,
                    MAX_STREAM_SAMPLES as int,
                    16,
                );
            }
            Some(
                TranscriptionStats::new(
                    processing_time_ms,
                    audio_ms,
                    self.total_segments,
                    self.total_words,
                ),
            )
        } else {
            None
        };
        StreamingChunk {
            text,
            start_cs: (start_sample / 160) as i64,
            end_cs: ((start_sample + sample_count as u64) / 160) as i64,
            is_final,
            chunk_index,
            final_stats,
        }
    }
}

/// Assemble the result of one batch run from the engine's raw segments
/// and the run's measurements: full text, kept segments, and the
/// statistics snapshot.
pub fn assemble_result(
    raw: &Vec<RawSegment>,
    language: Option<String>,
    processing_time_ms: u64,
    total_samples: u64,
) -> (r: SyncTranscriptionResult)
    requires
        processing_time_ms <= MAX_STAT_TIME_MS,
        total_samples <= MAX_STREAM_SAMPLES,
        raw@.len() <= MAX_STAT_COUNT,
        spec_word_count(encode_utf8(spec_kept_text(raw@))) <= MAX_STAT_COUNT,
    ensures
        r.text@ == spec_kept_text(raw@),
        r.segments@ == spec_kept_segments(raw@),
        r.language == language,
        r.processing_time_ms == processing_time_ms,
        r.audio_duration_ms == total_samples as int / 16,
        r.stats == spec_stats(
            processing_time_ms,
            (total_samples as int / 16) as u64,
            spec_kept_segments(raw@).len() as u64,
            spec_word_count(encode_utf8(spec_kept_text(raw@))) as u64,
        ),
{
    let (text, segments) = collect_segments(raw);
    let words = count_words(text.as_str());
    let audio_duration_ms: u64 = total_samples / 16;
    proof {
        vstd::arithmetic::div_mod::lemma_div_is_ordered(
            total_samples as int,
            MAX_STREAM_SAMPLES as int,
            16,
        );
        lemma_kept_segments_count(raw@);
    }
    let stats = TranscriptionStats::new(
        processing_time_ms,
        audio_duration_ms,
        segments.len() as u64,
        words as u64,
    );
    SyncTranscriptionResult {
        text,
        language,
        segments,
        processing_time_ms,
        audio_duration_ms,
        stats,
    }
}

} // verus!
