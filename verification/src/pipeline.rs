//! The producer side of the transcription pipeline: decode events in,
//! normalized samples (batch) or fixed-duration chunks (streaming) out.
//!
//! The decode capability itself is external; the embedding application
//! feeds decoded frames into a session here. Fast-path frames are
//! converted by the library; frames that need the general resampler are
//! routed out, converted externally, and their samples handed back. A
//! failed conversion drops one frame's output and resets the context —
//! recoverable, never fatal. A corrupt packet is skipped; any other packet
//! failure aborts the stream.

use vstd::prelude::*;
use vstd::string::StringExecFns;

use crate::audio::{AudioChunk, AudioData, Chunker, full_chunk_shape, MAX_STREAM_SAMPLES};
use crate::error::WhisperError;
use crate::resample::{
    fast_path_convert, spec_fast_path, spec_route, FrameRoute, RawFrame, Resampler,
    ResamplerState, MAX_FRAME_SAMPLES,
};

verus! {

/// A packet-level decode failure, as reported by the decode capability.
#[derive(Debug, Clone)]
pub enum DecodeError {
    /// The packet's data is invalid (a corrupt packet).
    InvalidData,
    /// Any other decoder failure, with its rendered message.
    Stream(String),
}

impl DecodeError {
    /// Packet resilience: exactly the corrupt-packet failure is skipped
    /// and decoding continues; every other packet failure is fatal.
    pub fn is_recoverable(&self) -> (r: bool)
        ensures
            r == (self is InvalidData),
    {
        match self {
            DecodeError::InvalidData => true,
            DecodeError::Stream(_) => false,
        }
    }
}

/// Largest number of samples one converted frame may add: a frame's
/// sample count times the worst-case decimation growth.
pub open spec fn spec_frame_budget(sample_len: int) -> int {
    sample_len * 16000
}

/// The decimated output of a frame never exceeds its budget.
proof fn lemma_fast_path_budget(frame: &RawFrame)
    requires
        frame.wf(),
        frame.spec_is_fast_path(),
    ensures
        spec_fast_path(frame).len() <= spec_frame_budget(frame.spec_sample_len()),
{
    let rate = frame.rate as int;
    match frame.data {
        crate::resample::SampleData::Int16(v) => {
            lemma_decimate_len(v@.len() as int, rate);
            assert(v@.len() as int <= v@.len() as int * 16000) by (nonlinear_arith);
        },
        crate::resample::SampleData::Float32(v) => {
            lemma_decimate_len(v@.len() as int, rate);
            assert(v@.len() as int <= v@.len() as int * 16000) by (nonlinear_arith);
        },
        crate::resample::SampleData::Opaque => {},
    }
}

/// Decimation yields at most `len * 16000` samples.
proof fn lemma_decimate_len(len: int, rate: int)
    requires
        len >= 0,
        rate >= 1,
    ensures
        crate::resample::decimate_count(len, rate) <= len * 16000,
{
    if len == 0 {
        vstd::arithmetic::div_mod::lemma_basic_div(rate - 1, rate);
    } else {
        assert(len * 16000 + rate - 1 <= (len * 16000) * rate) by (nonlinear_arith)
            requires
                len >= 1,
                rate >= 1,
        ;
        vstd::arithmetic::div_mod::lemma_div_is_ordered(
            len * 16000 + rate - 1,
            (len * 16000) * rate,
            rate,
        );
        vstd::arithmetic::div_mod::lemma_div_multiples_vanish(len * 16000, rate);
        assert((len * 16000) * rate == rate * (len * 16000)) by (nonlinear_arith);
    }
}

/// The batch normalization session: Decode → Resample, no chunking.
/// Accumulates the whole normalized sample stream for a one-shot
/// inference run.
pub struct BatchNormalizer {
    resampler: Resampler,
    samples: Vec<u32>,
}

impl BatchNormalizer {
    /// The resampler state machine's state.
    pub closed spec fn state(&self) -> ResamplerState {
        self.resampler.state()
    }

    /// The normalized samples accumulated so far, in arrival order.
    pub closed spec fn collected(&self) -> Seq<u32> {
        self.samples@
    }

    /// A fresh session: no samples, no live conversion context.
    pub fn new() -> (r: BatchNormalizer)
        ensures
            r.state() == ResamplerState::Uninitialized,
            r.collected() == Seq::<u32>::empty(),
    {
        BatchNormalizer { resampler: Resampler::new(), samples: Vec::new() }
    }

    /// Samples accumulated so far.
    pub fn len(&self) -> (n: usize)
        ensures
            n == self.collected().len(),
    {
        self.samples.len()
    }

    /// Route one frame through the state machine: fast path, or general
    /// conversion with or without a context rebuild.
    pub fn route_frame(&mut self, frame: &RawFrame) -> (r: FrameRoute)
        ensures
            final(self).state() == spec_route(
                old(self).state(),
                frame.spec_is_fast_path(),
                frame.spec_key(),
            ).0,
            r == spec_route(old(self).state(), frame.spec_is_fast_path(), frame.spec_key()).1,
            final(self).collected() == old(self).collected(),
    {
        self.resampler.route_frame(frame)
    }

    /// Convert a fast-path frame in place and append its samples.
    pub fn push_fast_frame(&mut self, frame: &RawFrame)
        requires
            frame.wf(),
            frame.spec_is_fast_path(),
            old(self).collected().len() + spec_frame_budget(MAX_FRAME_SAMPLES as int)
                <= usize::MAX,
        ensures
            final(self).collected() == old(self).collected() + spec_fast_path(frame),
            final(self).state() == old(self).state(),
    {
        proof {
            lemma_fast_path_budget(frame);
            vstd::arithmetic::mul::lemma_mul_inequality(
                frame.spec_sample_len(),
                MAX_FRAME_SAMPLES as int,
                16000,
            );
        }
        let converted = fast_path_convert(frame);
        self.samples.extend_from_slice(converted.as_slice());
    }

    /// Append samples produced by the external resampler for one frame.
    pub fn push_converted(&mut self, converted: &Vec<u32>)
        requires
            old(self).collected().len() + converted@.len() <= usize::MAX,
        ensures
            final(self).collected() == old(self).collected() + converted@,
            final(self).state() == old(self).state(),
    {
        self.samples.extend_from_slice(converted.as_slice());
    }

    /// Record a failed conversion: the frame's output is dropped and the
    /// next converted frame rebuilds the context from scratch.
    pub fn conversion_failed(&mut self)
        ensures
            final(self).state() == ResamplerState::Uninitialized,
            final(self).collected() == old(self).collected(),
    {
        self.resampler.note_failure();
    }

    /// End of input: hand out the normalized audio, or fail when not a
    /// single sample was ever produced.
    pub fn finish(self) -> (r: Result<AudioData, WhisperError>)
        ensures
            match r {
                Result::Err(e) => self.collected().len() == 0 && e is AudioProcessing,
                Result::Ok(data) => {
                    &&& self.collected().len() > 0
                    &&& data.samples@ == self.collected()
                    &&& data.sample_rate == 16000
                },
            },
    {
        if self.samples.len() == 0 {
            Err(
                WhisperError::AudioProcessing(
                    String::from_str(
                        "No audio data could be extracted from file - file may be corrupted or unsupported",
                    ),
                ),
            )
        } else {
            Ok(AudioData { samples: self.samples, sample_rate: 16000 })
        }
    }
}

/// The streaming normalization session: Decode → Resample → Chunk. Emits
/// fixed-duration chunks as soon as they fill, in index order.
pub struct StreamPipeline {
    resampler: Resampler,
    chunker: Chunker,
}

impl StreamPipeline {
    /// The resampler state machine's state.
    pub closed spec fn state(&self) -> ResamplerState {
        self.resampler.state()
    }

    /// Every normalized sample pushed through the session so far.
    pub closed spec fn history(&self) -> Seq<u32> {
        self.chunker.history()
    }

    /// Index of the next chunk to be emitted.
    pub closed spec fn emitted(&self) -> int {
        self.chunker.emitted()
    }

    /// The session invariant.
    pub closed spec fn wf(&self) -> bool {
        self.chunker.wf()
    }

    /// A fresh session.
    pub fn new() -> (r: StreamPipeline)
        ensures
            r.wf(),
            r.state() == ResamplerState::Uninitialized,
            r.history() == Seq::<u32>::empty(),
            r.emitted() == 0,
    {
        StreamPipeline { resampler: Resampler::new(), chunker: Chunker::new() }
    }

    /// Samples pushed through the session so far.
    pub fn samples_in(&self) -> (n: u64)
        requires
            self.wf(),
            self.history().len() <= MAX_STREAM_SAMPLES,
        ensures
            n == self.history().len(),
    {
        self.chunker.total_samples()
    }

    /// Route one frame through the state machine.
    pub fn route_frame(&mut self, frame: &RawFrame) -> (r: FrameRoute)
        ensures
            final(self).state() == spec_route(
                old(self).state(),
                frame.spec_is_fast_path(),
                frame.spec_key(),
            ).0,
            r == spec_route(old(self).state(), frame.spec_is_fast_path(), frame.spec_key()).1,
            final(self).history() == old(self).history(),
            final(self).emitted() == old(self).emitted(),
            final(self).wf() == old(self).wf(),
    {
        self.resampler.route_frame(frame)
    }

    /// Convert a fast-path frame and push its samples, collecting every
    /// chunk that fills.
    pub fn push_fast_frame(&mut self, frame: &RawFrame) -> (out: Vec<AudioChunk>)
        requires
            old(self).wf(),
            frame.wf(),
            frame.spec_is_fast_path(),
            old(self).history().len() + spec_frame_budget(MAX_FRAME_SAMPLES as int)
                <= MAX_STREAM_SAMPLES,
        ensures
            final(self).wf(),
            final(self).state() == old(self).state(),
            final(self).history() == old(self).history() + spec_fast_path(frame),
            final(self).emitted() == final(self).history().len() as int / (
            crate::audio::TARGET_CHUNK_SAMPLES as int),
            out@.len() == final(self).emitted() - old(self).emitted(),
            forall|j: int|
                0 <= j < out@.len() ==> full_chunk_shape(
                    #[trigger] out@[j],
                    old(self).emitted() + j,
                    final(self).history(),
                ),
    {
        proof {
            lemma_fast_path_budget(frame);
            vstd::arithmetic::mul::lemma_mul_inequality(
                frame.spec_sample_len(),
                MAX_FRAME_SAMPLES as int,
                16000,
            );
        }
        let converted = fast_path_convert(frame);
        self.chunker.push(&converted)
    }

    /// Push samples produced by the external resampler for one frame,
    /// collecting every chunk that fills.
    pub fn push_converted(&mut self, converted: &Vec<u32>) -> (out: Vec<AudioChunk>)
        requires
            old(self).wf(),
            old(self).history().len() + converted@.len() <= MAX_STREAM_SAMPLES,
        ensures
            final(self).wf(),
            final(self).state() == old(self).state(),
            final(self).history() == old(self).history() + converted@,
            final(self).emitted() == final(self).history().len() as int / (
            crate::audio::TARGET_CHUNK_SAMPLES as int),
            out@.len() == final(self).emitted() - old(self).emitted(),
            forall|j: int|
                0 <= j < out@.len() ==> full_chunk_shape(
                    #[trigger] out@[j],
                    old(self).emitted() + j,
                    final(self).history(),
                ),
    {
        self.chunker.push(converted)
    }

    /// Record a failed conversion, dropping that frame's output.
    pub fn conversion_failed(&mut self)
        ensures
            final(self).wf() == old(self).wf(),
            final(self).state() == ResamplerState::Uninitialized,
            final(self).history() == old(self).history(),
            final(self).emitted() == old(self).emitted(),
    {
        self.resampler.note_failure();
    }

    /// End of stream: the remaining samples become the final (shorter)
    /// chunk; nothing further is emitted when the buffer is empty after
    /// at least one chunk; a stream that never produced a sample is a
    /// fatal audio-processing error.
    pub fn finish(self) -> (r: Result<Option<AudioChunk>, WhisperError>)
        requires
            self.wf(),
            self.history().len() <= MAX_STREAM_SAMPLES,
        ensures
            match r {
                Result::Err(e) => self.history().len() == 0 && e is AudioProcessing,
                Result::Ok(opt) => self.history().len() > 0 && match opt {
                    Option::None => self.history().len() as int % (
                    crate::audio::TARGET_CHUNK_SAMPLES as int) == 0,
                    Option::Some(c) => {
                        &&& c.index == self.emitted()
                        &&& c.start_sample == self.emitted() * (
                        crate::audio::TARGET_CHUNK_SAMPLES as int)
                        &&& c.is_final
                        &&& c.sample_rate == 16000
                        &&& c.samples@ == self.history().skip(
                            self.emitted() * (crate::audio::TARGET_CHUNK_SAMPLES as int),
                        )
                        &&& c.samples@.len() > 0
                    },
                },
            },
    {
        self.chunker.finish()
    }
}

/// Handle for the decode adapter. The decoder library's process-wide
/// initialization is performed at most once by the embedding application;
/// this records whether it has happened for this processor.
#[derive(Debug, Clone)]
pub struct AudioProcessor {
    initialized: bool,
}

impl AudioProcessor {
    /// Whether the process-wide decoder initialization has been recorded.
    pub closed spec fn spec_initialized(&self) -> bool {
        self.initialized
    }

    /// Create a new audio processor; nothing is initialized yet.
    pub fn new() -> (r: AudioProcessor)
        ensures
            !r.spec_initialized(),
    {
        AudioProcessor { initialized: false }
    }

    /// Whether the process-wide decoder initialization has been recorded.
    pub fn is_initialized(&self) -> (r: bool)
        ensures
            r == self.spec_initialized(),
    {
        self.initialized
    }

    /// Record that the process-wide decoder initialization ran. Safe to
    /// call redundantly: once set, it stays set.
    pub fn mark_initialized(&mut self)
        ensures
            final(self).spec_initialized(),
    {
        self.initialized = true;
    }
}

impl Default for AudioProcessor {
    fn default() -> (r: Self)
        ensures
            !r.spec_initialized(),
    {
        AudioProcessor::new()
    }
}

/// The little-endian 32-bit word at position `i` of a byte stream.
pub open spec fn spec_le_word(b: Seq<u8>, i: int) -> u32 {
    (b[4 * i] as u32) | ((b[4 * i + 1] as u32) << 8u32) | ((b[4 * i + 2] as u32) << 16u32) | ((b[4
        * i + 3] as u32) << 24u32)
}

/// Audio loading through an external command-line converter: the
/// converter writes raw little-endian 32-bit float samples, and this
/// processor turns those bytes into normalized audio.
#[derive(Debug, Clone, Copy)]
pub struct SimpleAudioProcessor;

impl SimpleAudioProcessor {
    /// Create a simple audio processor.
    pub fn new() -> Self {
        SimpleAudioProcessor
    }

    /// Parse raw little-endian 32-bit float sample bytes into normalized
    /// audio. Fails exactly when the byte count is not a multiple of 4.
    pub fn parse_f32le_bytes(&self, raw: &Vec<u8>) -> (r: Result<AudioData, WhisperError>)
        ensures
            match r {
                Result::Err(e) => raw@.len() % 4 != 0 && e is AudioProcessing,
                Result::Ok(data) => {
                    &&& raw@.len() % 4 == 0
                    &&& data.sample_rate == 16000
                    &&& data.samples@.len() == raw@.len() / 4
                    &&& forall|i: int|
                        0 <= i < data.samples@.len() ==> data.samples@[i] == spec_le_word(raw@, i)
                },
            },
    {
        if raw.len() % 4 != 0 {
            return Err(WhisperError::AudioProcessing(String::from_str("Invalid audio data length")));
        }
        let n = raw.len() / 4;
        proof {
            vstd::arithmetic::div_mod::lemma_fundamental_div_mod(raw@.len() as int, 4);
        }
        let mut samples: Vec<u32> = Vec::new();
        let mut i: usize = 0;
        while i < n
            invariant
                n == raw@.len() / 4,
                4 * (n as int) == raw@.len(),
                raw@.len() <= usize::MAX,
                i <= n,
                samples@.len() == i,
                forall|j: int| 0 <= j < i ==> samples@[j] == spec_le_word(raw@, j),
            decreases n - i,
        {
            let b0 = raw[4 * i] as u32;
            let b1 = raw[4 * i + 1] as u32;
            let b2 = raw[4 * i + 2] as u32;
            let b3 = raw[4 * i + 3] as u32;
            let w: u32 = b0 | (b1 << 8) | (b2 << 16) | (b3 << 24);
            samples.push(w);
            i = i + 1;
        }
        Ok(AudioData { samples, sample_rate: 16000 })
    }
}

} // verus!
