//! Normalized audio containers and fixed-duration chunking.
//!
//! Samples are 32-bit float bit patterns at the fixed 16 kHz target rate.
//! The chunker cuts the normalized stream into windows of exactly
//! [`TARGET_CHUNK_SAMPLES`] samples (10 seconds), tagging each with its
//! index and start offset; a shorter final window carries what remains at
//! end of stream.

use vstd::prelude::*;
use vstd::arithmetic::div_mod::{
    lemma_div_plus_one, lemma_mod_add_multiples_vanish, lemma_fundamental_div_mod,
    lemma_mod_division_less_than_divisor,
};
use vstd::string::StringExecFns;

use crate::error::WhisperError;

verus! {

/// Samples per chunk: 10 seconds of audio at the 16 kHz target rate.
pub const TARGET_CHUNK_SAMPLES: usize = 160000;

/// Upper bound on the length of one normalized stream, in samples.
/// Keeps every offset computation inside `u64` and `usize`.
pub const MAX_STREAM_SAMPLES: u64 = 0x4000_0000_0000;

/// Fully normalized audio: mono samples (32-bit float bit patterns) at the
/// target rate.
#[derive(Debug, Clone)]
pub struct AudioData {
    /// Raw audio samples, each the bit pattern of a 32-bit float (mono).
    pub samples: Vec<u32>,
    /// Sample rate in Hz.
    pub sample_rate: u32,
}

impl AudioData {
    /// Duration of this audio in milliseconds, rounded down.
    pub fn duration_ms(&self) -> (d: u64)
        requires
            self.samples@.len() <= MAX_STREAM_SAMPLES,
            self.sample_rate == 16000,
        ensures
            d == self.samples@.len() * 1000 / 16000,
    {
        (self.samples.len() as u64) * 1000 / 16000
    }
}

/// One fixed-duration window of normalized audio.
#[derive(Debug, Clone)]
pub struct AudioChunk {
    /// Raw audio samples, each the bit pattern of a 32-bit float (mono,
    /// at the target rate).
    pub samples: Vec<u32>,
    /// Sample rate in Hz (always 16000).
    pub sample_rate: u32,
    /// Chunk index in the stream, 0-based and contiguous.
    pub index: usize,
    /// Offset of this chunk's first sample into the normalized stream.
    pub start_sample: u64,
    /// Whether this is the final chunk in the stream.
    pub is_final: bool,
}

impl AudioChunk {
    /// Create a new audio chunk at the target rate.
    pub fn new(samples: Vec<u32>, index: usize, start_sample: u64, is_final: bool) -> (c:
        AudioChunk)
        ensures
            c == (AudioChunk { samples, sample_rate: 16000u32, index, start_sample, is_final }),
    {
        AudioChunk { samples, sample_rate: 16000, index, start_sample, is_final }
    }

    /// Start offset of this chunk in centiseconds.
    pub fn start_cs(&self) -> (r: u64)
        requires
            self.start_sample <= MAX_STREAM_SAMPLES,
        ensures
            r == self.start_sample / 160,
    {
        self.start_sample / 160
    }

    /// Duration of this chunk in milliseconds, rounded down.
    pub fn duration_ms(&self) -> (d: u64)
        requires
            self.samples@.len() <= MAX_STREAM_SAMPLES,
        ensures
            d == self.samples@.len() * 1000 / 16000,
    {
        (self.samples.len() as u64) * 1000 / 16000
    }
}

/// How many chunks a stream of `n` samples yields: one per full window,
/// plus one for a nonempty remainder.
pub open spec fn chunk_count(n: int) -> int {
    if n % (TARGET_CHUNK_SAMPLES as int) == 0 {
        n / (TARGET_CHUNK_SAMPLES as int)
    } else {
        n / (TARGET_CHUNK_SAMPLES as int) + 1
    }
}

/// Where the `i`-th chunk of a stream of `n` samples ends (exclusive).
pub open spec fn chunk_end(n: int, i: int) -> int {
    if (i + 1) * (TARGET_CHUNK_SAMPLES as int) <= n {
        (i + 1) * (TARGET_CHUNK_SAMPLES as int)
    } else {
        n
    }
}

/// The samples of the `i`-th chunk of stream `s`.
pub open spec fn chunk_samples(s: Seq<u32>, i: int) -> Seq<u32> {
    s.subrange(i * (TARGET_CHUNK_SAMPLES as int), chunk_end(s.len() as int, i))
}

/// The full chunking of a stream: every window, in order.
pub open spec fn spec_chunks(s: Seq<u32>) -> Seq<Seq<u32>> {
    Seq::new(chunk_count(s.len() as int) as nat, |i: int| chunk_samples(s, i))
}

/// Concatenation of a sequence of sample sequences, in order.
pub open spec fn concat_all(ss: Seq<Seq<u32>>) -> Seq<u32>
    decreases ss.len(),
{
    if ss.len() == 0 {
        Seq::empty()
    } else {
        ss[0] + concat_all(ss.drop_first())
    }
}

/// Chunk coverage: chunking a stream loses nothing and duplicates nothing.
/// The concatenation of all chunks, in emission order, is the stream itself;
/// every chunk but the last holds exactly [`TARGET_CHUNK_SAMPLES`] samples;
/// the last holds the remainder, or a full window when the length is an
/// exact positive multiple.
pub proof fn lemma_chunk_coverage(s: Seq<u32>)
    ensures
        concat_all(spec_chunks(s)) == s,
        spec_chunks(s).len() == chunk_count(s.len() as int),
        forall|i: int|
            0 <= i && i + 1 < chunk_count(s.len() as int) ==> (#[trigger] spec_chunks(s)[i]).len()
                == TARGET_CHUNK_SAMPLES,
        s.len() > 0 && s.len() as int % (TARGET_CHUNK_SAMPLES as int) == 0 ==> spec_chunks(
            s,
        ).last().len() == TARGET_CHUNK_SAMPLES,
        s.len() as int % (TARGET_CHUNK_SAMPLES as int) != 0 ==> spec_chunks(s).last().len()
            == s.len() as int % (TARGET_CHUNK_SAMPLES as int),
    decreases s.len(),
{
    let t = TARGET_CHUNK_SAMPLES as int;
    if s.len() == 0 {
        assert(concat_all(spec_chunks(s)) =~= s);
    } else if s.len() <= t {
        assert(s.len() as int / t == 0 || s.len() as int / t == 1) by {
            lemma_fundamental_div_mod(s.len() as int, t);
            lemma_mod_division_less_than_divisor(s.len() as int, t);
        }
        assert(s.len() as int % t == 0 ==> s.len() == t) by {
            lemma_fundamental_div_mod(s.len() as int, t);
        }
        assert(chunk_count(s.len() as int) == 1) by {
            lemma_fundamental_div_mod(s.len() as int, t);
            lemma_mod_division_less_than_divisor(s.len() as int, t);
        }
        assert(spec_chunks(s)[0] =~= s);
        assert(spec_chunks(s).drop_first() =~= Seq::<Seq<u32>>::empty());
        assert(concat_all(spec_chunks(s).drop_first()) =~= Seq::<u32>::empty());
        assert(concat_all(spec_chunks(s)) == spec_chunks(s)[0] + concat_all(
            spec_chunks(s).drop_first(),
        ));
        assert(concat_all(spec_chunks(s)) =~= s);
    } else {
        let rest = s.skip(t);
        lemma_chunk_coverage(rest);
        lemma_div_plus_one(s.len() as int, t);
        lemma_mod_add_multiples_vanish(rest.len() as int, t);
        assert(s.len() as int == rest.len() as int + t);
        assert(chunk_count(s.len() as int) == 1 + chunk_count(rest.len() as int));
        assert(spec_chunks(s)[0] =~= s.take(t));
        assert forall|i: int| 0 <= i < chunk_count(rest.len() as int) implies spec_chunks(
            s,
        ).drop_first()[i] =~= spec_chunks(rest)[i] by {
            assert(chunk_end(s.len() as int, i + 1) == chunk_end(rest.len() as int, i) + t);
        }
        assert(spec_chunks(s).drop_first() =~= spec_chunks(rest));
        assert(concat_all(spec_chunks(s)) == s.take(t) + concat_all(spec_chunks(rest)));
        assert(s.take(t) + rest =~= s);
        assert forall|i: int| 0 <= i && i + 1 < chunk_count(s.len() as int) implies (
        #[trigger] spec_chunks(s)[i]).len() == TARGET_CHUNK_SAMPLES by {
            if i > 0 {
                assert(spec_chunks(s)[i] =~= spec_chunks(rest)[i - 1]);
            }
        }
    }
}

/// The shape of a full (non-final) chunk cut at index `i` from stream
/// `hist`: its index, start offset, flag, rate, and exact samples.
pub open spec fn full_chunk_shape(c: AudioChunk, i: int, hist: Seq<u32>) -> bool {
    &&& c.index == i
    &&& c.start_sample == i * (TARGET_CHUNK_SAMPLES as int)
    &&& !c.is_final
    &&& c.sample_rate == 16000
    &&& c.samples@ == hist.subrange(
        i * (TARGET_CHUNK_SAMPLES as int),
        (i + 1) * (TARGET_CHUNK_SAMPLES as int),
    )
}

/// Accumulates the normalized sample stream and cuts full windows off its
/// front, in order. The ghost `history` records every sample ever pushed;
/// the well-formedness invariant ties the emitted windows, the pending
/// buffer, and the history together.
pub struct Chunker {
    buffer: Vec<u32>,
    next_index: usize,
    consumed: u64,
    history: Ghost<Seq<u32>>,
}

impl Chunker {
    /// Every sample ever pushed into this chunker, in order.
    pub closed spec fn history(&self) -> Seq<u32> {
        self.history@
    }

    /// Index of the next chunk to be emitted.
    pub closed spec fn emitted(&self) -> int {
        self.next_index as int
    }

    /// The samples still buffered, not yet part of any chunk.
    pub closed spec fn pending(&self) -> Seq<u32> {
        self.buffer@
    }

    /// The chunker's invariant: the buffer is exactly the tail of the
    /// history past the consumed prefix, and always shorter than a window.
    pub closed spec fn wf(&self) -> bool {
        &&& self.consumed == self.next_index * (TARGET_CHUNK_SAMPLES as int)
        &&& self.history@.len() == self.consumed + self.buffer@.len()
        &&& self.buffer@ == self.history@.skip(self.consumed as int)
        &&& self.buffer@.len() < TARGET_CHUNK_SAMPLES
    }

    /// Create an empty chunker.
    pub fn new() -> (c: Chunker)
        ensures
            c.wf(),
            c.history() == Seq::<u32>::empty(),
            c.emitted() == 0,
    {
        let c = Chunker { buffer: Vec::new(), next_index: 0, consumed: 0, history: Ghost(Seq::empty()) };
        proof {
            assert(c.buffer@ =~= c.history@.skip(0));
        }
        c
    }

    /// Total samples pushed into this chunker so far.
    pub fn total_samples(&self) -> (n: u64)
        requires
            self.wf(),
            self.history().len() <= MAX_STREAM_SAMPLES,
        ensures
            n == self.history().len(),
    {
        self.consumed + self.buffer.len() as u64
    }

    /// Append normalized samples, emitting every full window that the
    /// buffer now covers, in index order.
    pub fn push(&mut self, samples: &Vec<u32>) -> (out: Vec<AudioChunk>)
        requires
            old(self).wf(),
            old(self).history().len() + samples@.len() <= MAX_STREAM_SAMPLES,
        ensures
            final(self).wf(),
            final(self).history() == old(self).history() + samples@,
            final(self).emitted() == final(self).history().len() as int / (
            TARGET_CHUNK_SAMPLES as int),
            out@.len() == final(self).emitted() - old(self).emitted(),
            forall|j: int|
                0 <= j < out@.len() ==> full_chunk_shape(
                    #[trigger] out@[j],
                    old(self).emitted() + j,
                    final(self).history(),
                ),
    {
        let ghost old_emitted = self.next_index as int;
        self.buffer.extend_from_slice(samples.as_slice());
        proof {
            self.history@ = self.history@ + samples@;
            assert(self.buffer@ =~= self.history@.skip(self.consumed as int));
        }
        let ghost hist = self.history@;
        let mut out: Vec<AudioChunk> = Vec::new();
        while self.buffer.len() >= TARGET_CHUNK_SAMPLES
            invariant
                self.consumed == self.next_index * (TARGET_CHUNK_SAMPLES as int),
                self.history@ == hist,
                hist.len() <= MAX_STREAM_SAMPLES,
                hist.len() == self.consumed + self.buffer@.len(),
                self.buffer@ == hist.skip(self.consumed as int),
                out@.len() == self.next_index as int - old_emitted,
                old_emitted <= self.next_index as int,
                forall|j: int|
                    0 <= j < out@.len() ==> full_chunk_shape(
                        #[trigger] out@[j],
                        old_emitted + j,
                        hist,
                    ),
            decreases self.buffer.len(),
        {
            let ghost pre_buffer = self.buffer@;
            let tail = self.buffer.split_off(TARGET_CHUNK_SAMPLES);
            let mut cut = tail;
            core::mem::swap(&mut self.buffer, &mut cut);
            // `cut` now holds the first window; `self.buffer` the rest.
            let start_sample: u64 = self.consumed;
            let chunk = AudioChunk::new(cut, self.next_index, start_sample, false);
            proof {
                assert(chunk.samples@ =~= hist.subrange(
                    self.consumed as int,
                    self.consumed as int + TARGET_CHUNK_SAMPLES as int,
                ));
            }
            out.push(chunk);
            self.next_index = self.next_index + 1;
            self.consumed = self.consumed + TARGET_CHUNK_SAMPLES as u64;
            proof {
                assert(self.buffer@ =~= hist.skip(self.consumed as int));
            }
        }
        proof {
            lemma_fundamental_div_mod(hist.len() as int, TARGET_CHUNK_SAMPLES as int);
            lemma_mod_division_less_than_divisor(hist.len() as int, TARGET_CHUNK_SAMPLES as int);
            assert(self.next_index as int == hist.len() as int / (TARGET_CHUNK_SAMPLES as int))
                by {
                vstd::arithmetic::div_mod::lemma_div_multiples_vanish_fancy(
                    self.next_index as int,
                    self.buffer@.len() as int,
                    TARGET_CHUNK_SAMPLES as int,
                );
            }
        }
        out
    }

    /// End the stream. A nonempty buffer becomes the final (shorter)
    /// chunk; an empty buffer after at least one emitted chunk ends the
    /// stream silently; a stream that never produced a sample is a fatal
    /// audio-processing error.
    pub fn finish(self) -> (r: Result<Option<AudioChunk>, WhisperError>)
        requires
            self.wf(),
            self.history().len() <= MAX_STREAM_SAMPLES,
        ensures
            match r {
                Result::Err(e) => self.history().len() == 0 && e is AudioProcessing,
                Result::Ok(opt) => self.history().len() > 0 && match opt {
                    Option::None => self.pending().len() == 0 && self.history().len() as int % (
                    TARGET_CHUNK_SAMPLES as int) == 0,
                    Option::Some(c) => {
                        &&& self.pending().len() > 0
                        &&& c.index == self.emitted()
                        &&& c.start_sample == self.emitted() * (TARGET_CHUNK_SAMPLES as int)
                        &&& c.is_final
                        &&& c.sample_rate == 16000
                        &&& c.samples@ == self.history().skip(
                            self.emitted() * (TARGET_CHUNK_SAMPLES as int),
                        )
                        &&& c.samples@ == self.pending()
                    },
                },
            },
    {
        if self.buffer.len() > 0 {
            let start_sample: u64 = self.consumed;
            let c = AudioChunk::new(self.buffer, self.next_index, start_sample, true);
            Ok(Some(c))
        } else if self.next_index > 0 {
            proof {
                vstd::arithmetic::div_mod::lemma_mod_multiples_basic(
                    self.next_index as int,
                    TARGET_CHUNK_SAMPLES as int,
                );
            }
            Ok(None)
        } else {
            proof {
                assert(self.history@.len() == 0);
            }
            Err(
                WhisperError::AudioProcessing(
                    String::from_str(
                        "No audio data could be extracted from file - file may be corrupted or unsupported",
                    ),
                ),
            )
        }
    }
}

/// Cut a whole normalized stream into chunks in one call: every full
/// window in order, then the remainder as the final chunk. Indices are
/// contiguous from 0, start offsets advance by a window, and exactly the
/// last chunk carries the final flag. An empty stream is a fatal
/// audio-processing error.
pub fn chunk_all(samples: &Vec<u32>) -> (r: Result<Vec<AudioChunk>, WhisperError>)
    requires
        samples@.len() <= MAX_STREAM_SAMPLES,
    ensures
        match r {
            Result::Err(e) => samples@.len() == 0 && e is AudioProcessing,
            Result::Ok(chunks) => {
                &&& samples@.len() > 0
                &&& chunks@.len() == chunk_count(samples@.len() as int)
                &&& forall|i: int|
                    0 <= i < chunks@.len() ==> {
                        &&& (#[trigger] chunks@[i]).samples@ == chunk_samples(samples@, i)
                        &&& chunks@[i].index == i
                        &&& chunks@[i].start_sample == i * (TARGET_CHUNK_SAMPLES as int)
                        &&& chunks@[i].sample_rate == 16000
                        &&& chunks@[i].is_final == (i == chunks@.len() - 1)
                    }
            },
        },
{
    let mut chunker = Chunker::new();
    let mut chunks = chunker.push(samples);
    proof {
        lemma_fundamental_div_mod(samples@.len() as int, TARGET_CHUNK_SAMPLES as int);
        lemma_mod_division_less_than_divisor(samples@.len() as int, TARGET_CHUNK_SAMPLES as int);
    }
    match chunker.finish() {
        Err(e) => Err(e),
        Ok(None) => {
            proof {
                assert forall|i: int| 0 <= i < chunks@.len() implies (#[trigger] chunks@[i]).samples@
                    == chunk_samples(samples@, i) by {
                    assert(chunk_end(samples@.len() as int, i) == (i + 1) * (
                    TARGET_CHUNK_SAMPLES as int));
                    assert(chunks@[i].samples@ =~= chunk_samples(samples@, i));
                }
            }
            // The stream length is an exact multiple of the window: mark
            // the last emitted chunk as final.
            let n = chunks.len();
            let mut last = chunks.remove(n - 1);
            last = AudioChunk { is_final: true, ..last };
            chunks.push(last);
            Ok(chunks)
        },
        Ok(Some(c)) => {
            proof {
                assert(c.samples@ =~= chunk_samples(samples@, chunks@.len() as int));
                assert forall|i: int| 0 <= i < chunks@.len() implies (#[trigger] chunks@[i]).samples@
                    == chunk_samples(samples@, i) by {
                    assert(chunk_end(samples@.len() as int, i) == (i + 1) * (
                    TARGET_CHUNK_SAMPLES as int));
                    assert(chunks@[i].samples@ =~= chunk_samples(samples@, i));
                }
            }
            chunks.push(c);
            Ok(chunks)
        },
    }
}

} // verus!
