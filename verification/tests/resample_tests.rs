//! Tests for the resampler state machine and the fast path.

use purr_core::resample::{
    fast_path_convert, i16_to_f32_bits, FrameKey, FrameRoute, RawFrame, Resampler, SampleData,
    SampleFormat,
};

fn f32_frame(bits: Vec<u32>, rate: u32) -> RawFrame {
    RawFrame {
        data: SampleData::Float32(bits),
        format: SampleFormat::Float32 { planar: false },
        channels: 1,
        channel_layout: 4,
        rate,
    }
}

fn i16_frame(samples: Vec<i16>, rate: u32) -> RawFrame {
    RawFrame {
        data: SampleData::Int16(samples),
        format: SampleFormat::Int16 { planar: false },
        channels: 1,
        channel_layout: 4,
        rate,
    }
}

fn stereo_frame(rate: u32, code: u32) -> RawFrame {
    RawFrame {
        data: SampleData::Opaque,
        format: SampleFormat::Other { code },
        channels: 2,
        channel_layout: 3,
        rate,
    }
}

#[test]
fn test_i16_conversion_exhaustive() {
    // Every 16-bit sample converts to exactly the float it should:
    // the sample divided by 32768.
    for s in i16::MIN..=i16::MAX {
        let bits = i16_to_f32_bits(s);
        let expected = s as f32 / 32768.0;
        assert_eq!(
            f32::from_bits(bits),
            expected,
            "sample {} converted to {:#x}",
            s,
            bits
        );
    }
}

#[test]
fn test_fast_path_passthrough_at_target_rate() {
    let bits: Vec<u32> = (0..100).map(|i| (i as f32).to_bits()).collect();
    let out = fast_path_convert(&f32_frame(bits.clone(), 16000));
    assert_eq!(out, bits);
}

#[test]
fn test_fast_path_decimation() {
    // 100 samples at 32 kHz decimate to 50 samples: indices 0, 2, ..., 98.
    let bits: Vec<u32> = (0..100u32).collect();
    let out = fast_path_convert(&f32_frame(bits, 32000));
    assert_eq!(out.len(), 50);
    let expected: Vec<u32> = (0..50u32).map(|k| 2 * k).collect();
    assert_eq!(out, expected);
}

#[test]
fn test_fast_path_decimation_non_integral_step() {
    // 10 samples at 44100 Hz: the cursor steps by 44100/16000, so the
    // kept indices are floor(k * 44100 / 16000) while in bounds.
    let bits: Vec<u32> = (0..10u32).collect();
    let out = fast_path_convert(&f32_frame(bits, 44100));
    let expected: Vec<u32> = vec![0, 2, 5, 8];
    assert_eq!(out, expected);
}

#[test]
fn test_fast_path_upsampling_repeats() {
    // 4 samples at 8 kHz: each source sample appears twice.
    let bits: Vec<u32> = vec![10, 11, 12, 13];
    let out = fast_path_convert(&f32_frame(bits, 8000));
    assert_eq!(out, vec![10, 10, 11, 11, 12, 12, 13, 13]);
}

#[test]
fn test_fast_path_int16_decimation() {
    let samples: Vec<i16> = vec![0, 1024, 2048, 3072];
    let out = fast_path_convert(&i16_frame(samples, 32000));
    assert_eq!(out.len(), 2);
    assert_eq!(f32::from_bits(out[0]), 0.0);
    assert_eq!(f32::from_bits(out[1]), 2048.0 / 32768.0);
}

#[test]
fn test_resampler_rebuild_minimality() {
    // Identically-keyed frames build the context exactly once; a key
    // change causes exactly one rebuild before the next conversion.
    let mut resampler = Resampler::new();
    let a = stereo_frame(44100, 7);
    let b = stereo_frame(48000, 7);

    assert_eq!(
        resampler.route_frame(&a),
        FrameRoute::Convert { rebuild: true }
    );
    assert_eq!(
        resampler.route_frame(&a),
        FrameRoute::Convert { rebuild: false }
    );
    assert_eq!(
        resampler.route_frame(&a),
        FrameRoute::Convert { rebuild: false }
    );
    // The rate changed: one rebuild, then none.
    assert_eq!(
        resampler.route_frame(&b),
        FrameRoute::Convert { rebuild: true }
    );
    assert_eq!(
        resampler.route_frame(&b),
        FrameRoute::Convert { rebuild: false }
    );
}

#[test]
fn test_resampler_failure_forces_rebuild() {
    let mut resampler = Resampler::new();
    let a = stereo_frame(44100, 7);
    assert_eq!(
        resampler.route_frame(&a),
        FrameRoute::Convert { rebuild: true }
    );
    resampler.note_failure();
    assert_eq!(
        resampler.route_frame(&a),
        FrameRoute::Convert { rebuild: true }
    );
}

#[test]
fn test_fast_path_leaves_state_untouched() {
    let mut resampler = Resampler::new();
    let fast = f32_frame(vec![0; 8], 16000);
    assert_eq!(resampler.route_frame(&fast), FrameRoute::FastPath);
    // The next conversion frame still has to build a context.
    let other = stereo_frame(44100, 7);
    assert_eq!(
        resampler.route_frame(&other),
        FrameRoute::Convert { rebuild: true }
    );
}

#[test]
fn test_zero_layout_gets_canonical_substitute() {
    // A mono frame reporting no layout gets the canonical mono layout,
    // so it keys identically to one that reports it.
    let reported = RawFrame {
        data: SampleData::Opaque,
        format: SampleFormat::Other { code: 9 },
        channels: 1,
        channel_layout: 4,
        rate: 22050,
    };
    let unreported = RawFrame {
        channel_layout: 0,
        data: SampleData::Opaque,
        ..reported.clone()
    };
    assert_eq!(reported.key(), unreported.key());
    assert_eq!(
        reported.key(),
        FrameKey {
            format: SampleFormat::Other { code: 9 },
            layout: 4,
            rate: 22050,
        }
    );
}

#[test]
fn test_fast_path_empty_frame() {
    let mut resampler = Resampler::new();
    let fast = f32_frame(vec![], 16000);
    assert_eq!(resampler.route_frame(&fast), FrameRoute::FastPath);
    assert_eq!(fast_path_convert(&fast), Vec::<u32>::new());
}
