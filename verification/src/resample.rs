//! The resampler state machine and the direct-conversion fast path.
//!
//! Every decoded frame is turned into mono 32-bit float samples at the
//! 16 kHz target rate. Frames that are already mono 16-bit integer or
//! 32-bit float take the fast path: an in-place conversion plus strided
//! decimation, never touching the general resampler. All other frames go
//! through the external conversion capability; its context is keyed by
//! `(format, layout, rate)` and rebuilt exactly when that key changes or
//! after a conversion failure.

use vstd::prelude::*;
use vstd::arithmetic::power2::{pow2, lemma_pow2_strictly_increases, lemma_pow2_unfold};
use vstd::arithmetic::div_mod::{
    lemma_fundamental_div_mod, lemma_div_multiples_vanish_fancy,
};
use vstd::bits::{lemma_u32_shl_is_mul, lemma_u32_pow2_no_overflow, lemma_u64_shl_is_mul};
use vstd::arithmetic::power2::lemma2_to64;

verus! {

/// Upper bound on the samples of one decoded frame.
pub const MAX_FRAME_SAMPLES: u64 = 0x400_0000;

/// Sample format tag of a decoded frame, as reported by the decoder.
#[derive(Debug, Clone, Copy, PartialEq, Eq, Structural)]
pub enum SampleFormat {
    /// Signed 16-bit integer samples.
    Int16 { planar: bool },
    /// 32-bit float samples.
    Float32 { planar: bool },
    /// Any other format, carried by its decoder-specific code.
    Other { code: u32 },
}

/// The sample payload of a decoded frame. Only formats the fast path can
/// read are carried as typed values; anything else stays opaque and is
/// converted by the external resampler.
#[derive(Debug, Clone)]
pub enum SampleData {
    /// Signed 16-bit integer samples (first plane).
    Int16(Vec<i16>),
    /// 32-bit float samples as raw bit patterns (first plane).
    Float32(Vec<u32>),
    /// Payload in a format the fast path does not read.
    Opaque,
}

/// One decoded audio frame with its per-frame format metadata.
#[derive(Debug, Clone)]
pub struct RawFrame {
    /// The frame's samples.
    pub data: SampleData,
    /// Sample format tag.
    pub format: SampleFormat,
    /// Number of channels (at least 1).
    pub channels: u32,
    /// Channel layout mask as reported; 0 when the decoder reported none.
    pub channel_layout: u64,
    /// Sample rate in Hz (at least 1).
    pub rate: u32,
}

/// The canonical channel-layout mask substituted when a frame reports no
/// layout: mono and stereo defaults, else a generic mask for `channels`
/// channels.
pub open spec fn spec_canonical_layout(channels: u32) -> u64 {
    if channels == 1 {
        4u64
    } else if channels == 2 {
        3u64
    } else if channels >= 64 {
        u64::MAX
    } else {
        ((1u64 << (channels as u64)) - 1) as u64
    }
}

impl RawFrame {
    /// The number of samples this frame carries.
    pub open spec fn spec_sample_len(&self) -> int {
        match self.data {
            SampleData::Int16(v) => v@.len() as int,
            SampleData::Float32(v) => v@.len() as int,
            SampleData::Opaque => 0,
        }
    }

    /// The payload variant agrees with the format tag, and the frame's
    /// dimensions stay inside the library's bounds.
    pub open spec fn wf(&self) -> bool {
        &&& 1 <= self.channels
        &&& 1 <= self.rate
        &&& match self.data {
            SampleData::Int16(v) => self.format is Int16 && v@.len() <= MAX_FRAME_SAMPLES,
            SampleData::Float32(v) => self.format is Float32 && v@.len() <= MAX_FRAME_SAMPLES,
            SampleData::Opaque => self.format is Other,
        }
    }

    /// Whether this frame takes the fast path: mono, and already 16-bit
    /// integer or 32-bit float. The sample rate does not matter; the fast
    /// path handles rate conversion by decimation.
    pub open spec fn spec_is_fast_path(&self) -> bool {
        self.channels == 1 && (self.format is Int16 || self.format is Float32)
    }

    /// The frame's effective channel layout: the reported one, or the
    /// canonical layout for its channel count when none was reported.
    pub open spec fn spec_effective_layout(&self) -> u64 {
        if self.channel_layout == 0 {
            spec_canonical_layout(self.channels)
        } else {
            self.channel_layout
        }
    }

    /// The conversion key of this frame.
    pub open spec fn spec_key(&self) -> FrameKey {
        FrameKey { format: self.format, layout: self.spec_effective_layout(), rate: self.rate }
    }

    /// Whether this frame takes the fast path.
    pub fn is_fast_path(&self) -> (r: bool)
        ensures
            r == self.spec_is_fast_path(),
    {
        self.channels == 1 && match self.format {
            SampleFormat::Int16 { .. } => true,
            SampleFormat::Float32 { .. } => true,
            SampleFormat::Other { .. } => false,
        }
    }

    /// Compute this frame's conversion key.
    pub fn key(&self) -> (k: FrameKey)
        ensures
            k == self.spec_key(),
    {
        let layout: u64 = if self.channel_layout == 0 {
            if self.channels == 1 {
                4
            } else if self.channels == 2 {
                3
            } else if self.channels >= 64 {
                u64::MAX
            } else {
                proof {
                    vstd::bits::lemma_u64_pow2_no_overflow(self.channels as nat);
                    lemma_u64_shl_is_mul(1u64, self.channels as u64);
                    vstd::arithmetic::power2::lemma_pow2_pos(self.channels as nat);
                }
                (1u64 << self.channels as u64) - 1
            }
        } else {
            self.channel_layout
        };
        FrameKey { format: self.format, layout, rate: self.rate }
    }
}

/// The key that identifies one conversion context: source format, source
/// channel layout, source rate. The target is fixed (mono, f32, 16 kHz).
#[derive(Debug, Clone, Copy, PartialEq, Eq, Structural)]
pub struct FrameKey {
    /// Source sample format.
    pub format: SampleFormat,
    /// Source effective channel layout mask.
    pub layout: u64,
    /// Source sample rate in Hz.
    pub rate: u32,
}

/// The resampler's state: no live context, or a context built for one key.
#[derive(Debug, Clone, Copy, PartialEq, Eq, Structural)]
pub enum ResamplerState {
    /// No conversion context exists; the next converted frame builds one.
    Uninitialized,
    /// A context built for exactly this key is live.
    Active(FrameKey),
}

/// What to do with one incoming frame.
#[derive(Debug, Clone, Copy, PartialEq, Eq, Structural)]
pub enum FrameRoute {
    /// Convert directly, never touching the general resampler.
    FastPath,
    /// Run the general conversion; `rebuild` says whether a fresh context
    /// must be constructed first.
    Convert { rebuild: bool },
}

/// The state machine's transition: a fast-path frame leaves the state
/// untouched; any other frame activates its own key, rebuilding exactly
/// when the live context was built for a different key (or none existed).
pub open spec fn spec_route(state: ResamplerState, fast: bool, key: FrameKey) -> (ResamplerState,
    FrameRoute) {
    if fast {
        (state, FrameRoute::FastPath)
    } else if state == ResamplerState::Active(key) {
        (state, FrameRoute::Convert { rebuild: false })
    } else {
        (ResamplerState::Active(key), FrameRoute::Convert { rebuild: true })
    }
}

/// Rebuild minimality: a conversion frame rebuilds the context exactly
/// when the live context was built for a different key, and a second
/// frame with the same key right after never rebuilds. So across a run of
/// identically-keyed frames the context is constructed exactly once, and
/// one rebuild happens when any part of the key changes.
pub proof fn lemma_rebuild_minimality(state: ResamplerState, key: FrameKey)
    ensures
        spec_route(state, false, key).1 == (FrameRoute::Convert {
            rebuild: state != ResamplerState::Active(key),
        }),
        spec_route(spec_route(state, false, key).0, false, key).1 == (FrameRoute::Convert {
            rebuild: false,
        }),
{
}

/// The resampler state machine. It owns no conversion context itself —
/// the external capability does — but it decides, per frame, whether the
/// context must be rebuilt, and tracks which key the live context serves.
#[derive(Debug)]
pub struct Resampler {
    state: ResamplerState,
}

impl Resampler {
    /// The tracked state.
    pub closed spec fn state(&self) -> ResamplerState {
        self.state
    }

    /// A fresh state machine with no live context.
    pub fn new() -> (r: Resampler)
        ensures
            r.state() == ResamplerState::Uninitialized,
    {
        Resampler { state: ResamplerState::Uninitialized }
    }

    /// Route one frame: decide fast path vs. general conversion, and for
    /// the latter whether the context must be rebuilt, activating the
    /// frame's key.
    pub fn route_frame(&mut self, frame: &RawFrame) -> (r: FrameRoute)
        ensures
            final(self).state() == spec_route(
                old(self).state(),
                frame.spec_is_fast_path(),
                frame.spec_key(),
            ).0,
            r == spec_route(old(self).state(), frame.spec_is_fast_path(), frame.spec_key()).1,
    {
        if frame.is_fast_path() {
            FrameRoute::FastPath
        } else {
            let key = frame.key();
            let rebuild = match self.state {
                ResamplerState::Active(k) => k != key,
                ResamplerState::Uninitialized => true,
            };
            self.state = ResamplerState::Active(key);
            FrameRoute::Convert { rebuild }
        }
    }

    /// Record a conversion failure: the frame's output is dropped and the
    /// context is discarded, so the next converted frame rebuilds from
    /// scratch.
    pub fn note_failure(&mut self)
        ensures
            final(self).state() == ResamplerState::Uninitialized,
    {
        self.state = ResamplerState::Uninitialized;
    }
}

/// Base-2 integer logarithm, rounded down; 0 for inputs below 2.
pub open spec fn spec_ilog2(m: nat) -> nat
    decreases m,
{
    if m <= 1 {
        0
    } else {
        1 + spec_ilog2(m / 2)
    }
}

/// `spec_ilog2` is characterized by bracketing powers of two.
proof fn lemma_ilog2_bracket(m: nat)
    requires
        m >= 1,
    ensures
        pow2(spec_ilog2(m)) <= m < pow2(spec_ilog2(m) + 1),
    decreases m,
{
    if m <= 1 {
        assert(pow2(0) == 1 && pow2(1) == 2) by {
            lemma2_to64();
        }
    } else {
        lemma_ilog2_bracket(m / 2);
        lemma_pow2_unfold(spec_ilog2(m));
        lemma_pow2_unfold((spec_ilog2(m) + 1) as nat);
    }
}

/// The bracketing characterization pins `spec_ilog2` down.
proof fn lemma_ilog2_unique(m: nat, e: nat)
    requires
        m >= 1,
        pow2(e) <= m < pow2(e + 1),
    ensures
        spec_ilog2(m) == e,
{
    lemma_ilog2_bracket(m);
    if spec_ilog2(m) < e {
        lemma_pow2_strictly_increases(spec_ilog2(m), e);
        if spec_ilog2(m) + 1 < e {
            lemma_pow2_strictly_increases(spec_ilog2(m) + 1, e);
        }
        assert(pow2(e) <= m < pow2(spec_ilog2(m) + 1));
        assert(false);
    }
    if spec_ilog2(m) > e {
        if e + 1 < spec_ilog2(m) {
            lemma_pow2_strictly_increases(e + 1, spec_ilog2(m));
        }
        assert(pow2(spec_ilog2(m)) <= m < pow2(e + 1));
        assert(false);
    }
}

/// The 32-bit IEEE 754 bit pattern of `s / 32768`, the normalized value
/// of a signed 16-bit sample. Exact: every such quotient is representable.
pub open spec fn i16_norm_bits(s: i16) -> u32 {
    if s == 0 {
        0u32
    } else {
        let sign: u32 = if s < 0 {
            0x8000_0000u32
        } else {
            0u32
        };
        let m: u32 = (if s < 0 {
            -(s as int)
        } else {
            s as int
        }) as u32;
        let e: u32 = spec_ilog2(m as nat) as u32;
        sign | ((((112u32 + e) as u32) << 23u32) | ((m << ((23u32 - e) as u32)) & 0x007F_FFFFu32))
    }
}

/// Convert one signed 16-bit sample to the bit pattern of its normalized
/// 32-bit float value (the sample divided by 32768).
pub fn i16_to_f32_bits(s: i16) -> (r: u32)
    ensures
        r == i16_norm_bits(s),
{
    if s == 0 {
        return 0;
    }
    let sign: u32 = if s < 0 {
        0x8000_0000
    } else {
        0
    };
    let m: u32 = if s < 0 {
        (-(s as i32)) as u32
    } else {
        s as u32
    };
    proof {
        assert(1 <= m <= 32768);
    }
    let mut e: u32 = 0;
    proof {
        lemma2_to64();
    }
    while (1u32 << (e + 1)) <= m
        invariant
            1 <= m <= 32768,
            e <= 15,
            pow2(e as nat) <= m,
        decreases 16 - e,
    {
        proof {
            lemma_u32_pow2_no_overflow((e + 1) as nat);
            lemma_u32_shl_is_mul(1u32, (e + 1) as u32);
            if e + 1 > 15 {
                lemma_pow2_strictly_increases(15, (e + 1) as nat);
                lemma2_to64();
                assert(false);
            }
        }
        e = e + 1;
    }
    proof {
        lemma_u32_pow2_no_overflow((e + 1) as nat);
        lemma_u32_shl_is_mul(1u32, (e + 1) as u32);
        lemma_ilog2_unique(m as nat, e as nat);
    }
    let mantissa: u32 = (m << (23 - e)) & 0x007F_FFFF;
    sign | (((112 + e) << 23) | mantissa)
}

/// How many samples strided decimation takes from `len` source samples at
/// source rate `rate`: the count of cursor positions `k * rate / 16000`
/// that land inside the source.
pub open spec fn decimate_count(len: int, rate: int) -> int {
    (len * 16000 + rate - 1) / rate
}

/// Strided decimation of a sample sequence from `rate` to the 16 kHz
/// target: position `k` takes the source sample at `k * rate / 16000`.
/// At the target rate itself every sample is kept, in order.
pub open spec fn spec_decimate(s: Seq<u32>, rate: int) -> Seq<u32> {
    if rate == 16000 {
        s
    } else {
        Seq::new(decimate_count(s.len() as int, rate) as nat, |k: int| s[k * rate / 16000])
    }
}

/// `k` is a valid decimation position exactly when its cursor lands
/// before the end of the source.
proof fn lemma_lt_ceil(k: int, a: int, r: int)
    requires
        r >= 1,
        a >= 0,
        k >= 0,
    ensures
        (k * r < a) <==> (k < (a + r - 1) / r),
{
    let c = (a + r - 1) / r;
    lemma_fundamental_div_mod(a + r - 1, r);
    let m = (a + r - 1) % r;
    assert(a + r - 1 == r * c + m);
    assert(c * r >= a) by (nonlinear_arith)
        requires
            a + r - 1 == r * c + m,
            0 <= m < r,
    ;
    assert(c * r < a + r) by (nonlinear_arith)
        requires
            a + r - 1 == r * c + m,
            0 <= m < r,
    ;
    if k * r < a {
        assert(k * r < c * r) by (nonlinear_arith)
            requires
                k * r < a,
                c * r >= a,
        ;
        assert(k < c) by (nonlinear_arith)
            requires
                k * r < c * r,
                r >= 1,
        ;
    }
    if k < c {
        assert(k * r <= (c - 1) * r) by (nonlinear_arith)
            requires
                k < c,
                r >= 1,
        ;
        assert((c - 1) * r < a) by (nonlinear_arith)
            requires
                c * r < a + r,
        ;
    }
}

/// A landing cursor position indexes inside the source.
proof fn lemma_decimate_index_in_bounds(k: int, len: int, rate: int)
    requires
        rate >= 1,
        len >= 0,
        k >= 0,
        k * rate < len * 16000,
    ensures
        0 <= k * rate / 16000 < len,
{
    assert(k * rate / 16000 < len) by (nonlinear_arith)
        requires
            k >= 0,
            rate >= 1,
            k * rate < len * 16000,
    ;
    assert(k * rate >= 0) by (nonlinear_arith)
        requires
            k >= 0,
            rate >= 1,
    ;
}

/// Fast-path decimation count: when the source length divides evenly, the
/// output holds exactly `len * 16000 / rate` samples — for a source at
/// `rate >= 16000`, one sample per `rate / 16000` source samples.
pub proof fn lemma_decimation_count_exact(len: int, rate: int)
    requires
        rate >= 1,
        len >= 0,
        (len * 16000) % rate == 0,
    ensures
        decimate_count(len, rate) == len * 16000 / rate,
{
    let a = len * 16000;
    lemma_fundamental_div_mod(a, rate);
    let q = a / rate;
    assert(a == rate * q);
    lemma_div_multiples_vanish_fancy(q, rate - 1, rate);
    assert((rate * q + (rate - 1)) / rate == q);
}

/// Decimate a vector of float bit patterns from `rate` to the target rate.
fn decimate_bits(v: &Vec<u32>, rate: u32) -> (out: Vec<u32>)
    requires
        v@.len() <= MAX_FRAME_SAMPLES,
        rate >= 1,
    ensures
        out@ == spec_decimate(v@, rate as int),
{
    if rate == 16000 {
        let mut out: Vec<u32> = Vec::new();
        out.extend_from_slice(v.as_slice());
        proof {
            assert(out@ =~= v@);
        }
        out
    } else {
        let len: u64 = v.len() as u64;
        let r64: u64 = rate as u64;
        let ghost count = decimate_count(len as int, rate as int);
        let mut out: Vec<u32> = Vec::new();
        let mut k: u64 = 0;
        let mut pos: u64 = 0;
        while pos < len * 16000
            invariant
                v@.len() == len,
                len <= MAX_FRAME_SAMPLES,
                len <= usize::MAX,
                r64 == rate,
                1 <= rate,
                rate != 16000,
                count == decimate_count(len as int, rate as int),
                pos == k * (rate as int),
                k <= count,
                out@.len() == k,
                forall|j: int| 0 <= j < k ==> out@[j] == v@[j * (rate as int) / 16000],
            decreases count - k,
        {
            proof {
                lemma_lt_ceil(k as int, len as int * 16000, rate as int);
                lemma_decimate_index_in_bounds(k as int, len as int, rate as int);
            }
            let idx: u64 = pos / 16000;
            let x = v[idx as usize];
            out.push(x);
            proof {
                assert(idx as int == k * (rate as int) / 16000);
                assert(out@[k as int] == v@[k * (rate as int) / 16000]);
                assert((k + 1) * (rate as int) == k * (rate as int) + rate) by (nonlinear_arith);
            }
            pos = pos + r64;
            k = k + 1;
        }
        proof {
            lemma_lt_ceil(k as int, len as int * 16000, rate as int);
            assert(k == count);
            assert(out@ =~= spec_decimate(v@, rate as int));
        }
        out
    }
}

/// What the fast path produces for one frame: its samples as float bit
/// patterns (16-bit integers normalized by 32768), decimated from the
/// frame's rate to the target rate.
pub open spec fn spec_fast_path(frame: &RawFrame) -> Seq<u32> {
    match frame.data {
        SampleData::Int16(v) => spec_decimate(
            v@.map_values(|x: i16| i16_norm_bits(x)),
            frame.rate as int,
        ),
        SampleData::Float32(v) => spec_decimate(v@, frame.rate as int),
        SampleData::Opaque => Seq::empty(),
    }
}

/// Convert a fast-path frame directly: normalize 16-bit samples by 32768
/// (floats pass through) and decimate to the target rate, in order.
pub fn fast_path_convert(frame: &RawFrame) -> (out: Vec<u32>)
    requires
        frame.wf(),
        frame.spec_is_fast_path(),
    ensures
        out@ == spec_fast_path(frame),
{
    match &frame.data {
        SampleData::Int16(v) => {
            let mut conv: Vec<u32> = Vec::new();
            let n = v.len();
            let mut i: usize = 0;
            while i < n
                invariant
                    n == v@.len(),
                    i <= n,
                    conv@.len() == i,
                    forall|j: int| 0 <= j < i ==> conv@[j] == i16_norm_bits(v@[j]),
                decreases n - i,
            {
                let b = i16_to_f32_bits(v[i]);
                conv.push(b);
                i = i + 1;
            }
            proof {
                assert(conv@ =~= v@.map_values(|x: i16| i16_norm_bits(x)));
            }
            decimate_bits(&conv, frame.rate)
        },
        SampleData::Float32(v) => decimate_bits(v, frame.rate),
        SampleData::Opaque => {
            proof {
                assert(false);
            }
            Vec::new()
        },
    }
}

} // verus!
