//! Integer helpers for sizes, speeds and durations: throughput as an
//! exact bytes-per-second ratio, reduction to a readable SI unit, spans
//! of time with nanosecond precision, and rounding to a unit of a base.

use vstd::prelude::*;
use vstd::arithmetic::power::pow;

verus! {

/// Nanoseconds per second.
pub const NANOS_PER_SEC: u32 = 1_000_000_000;

/// A span of time: whole seconds plus a sub-second nanosecond part.
#[derive(Debug, Clone, Copy, PartialEq, Eq, Structural)]
pub struct TimeSpan {
    /// Whole seconds.
    pub secs: u64,
    /// Nanoseconds within the second, below one billion.
    pub nanos: u32,
}

/// The longest representable span, in nanoseconds.
pub open spec fn spec_max_span_nanos() -> int {
    u64::MAX * 1_000_000_000 + 999_999_999
}

impl TimeSpan {
    /// The nanosecond part stays below one second.
    pub open spec fn wf(&self) -> bool {
        self.nanos < NANOS_PER_SEC
    }

    /// The span's total length in nanoseconds.
    pub open spec fn spec_nanos(&self) -> int {
        self.secs * 1_000_000_000 + self.nanos
    }

    /// Build a span from seconds and sub-second nanoseconds.
    pub fn new(secs: u64, nanos: u32) -> (r: TimeSpan)
        requires
            nanos < NANOS_PER_SEC,
        ensures
            r == (TimeSpan { secs, nanos }),
            r.wf(),
    {
        TimeSpan { secs, nanos }
    }

    /// A span of whole seconds.
    pub fn from_secs(secs: u64) -> (r: TimeSpan)
        ensures
            r.secs == secs,
            r.nanos == 0,
            r.wf(),
    {
        TimeSpan { secs, nanos: 0 }
    }

    /// Whether this span is empty.
    pub fn is_zero(&self) -> (r: bool)
        ensures
            r == (self.spec_nanos() == 0),
    {
        self.secs == 0 && self.nanos == 0
    }

    /// Whether this span is no longer than `other`.
    pub fn le(&self, other: &TimeSpan) -> (r: bool)
        requires
            self.wf(),
            other.wf(),
        ensures
            r == (self.spec_nanos() <= other.spec_nanos()),
    {
        if self.secs != other.secs {
            self.secs < other.secs
        } else {
            self.nanos <= other.nanos
        }
    }

    /// The absolute difference between two spans.
    pub fn abs_diff(&self, other: &TimeSpan) -> (r: TimeSpan)
        requires
            self.wf(),
            other.wf(),
        ensures
            r.wf(),
            r.spec_nanos() == if self.spec_nanos() >= other.spec_nanos() {
                self.spec_nanos() - other.spec_nanos()
            } else {
                other.spec_nanos() - self.spec_nanos()
            },
    {
        let (hi, lo): (&TimeSpan, &TimeSpan) = if self.le(other) {
            (other, self)
        } else {
            (self, other)
        };
        if hi.nanos >= lo.nanos {
            TimeSpan { secs: hi.secs - lo.secs, nanos: hi.nanos - lo.nanos }
        } else {
            TimeSpan {
                secs: hi.secs - lo.secs - 1,
                nanos: (NANOS_PER_SEC - lo.nanos) + hi.nanos,
            }
        }
    }

    /// Add two spans, saturating at the largest representable span.
    pub fn saturating_add(&self, other: &TimeSpan) -> (r: TimeSpan)
        requires
            self.wf(),
            other.wf(),
        ensures
            r.wf(),
            r.spec_nanos() == if self.spec_nanos() + other.spec_nanos() <= spec_max_span_nanos() {
                self.spec_nanos() + other.spec_nanos()
            } else {
                spec_max_span_nanos()
            },
    {
        let nanos_sum: u32 = self.nanos + other.nanos;
        let (carry, nanos): (u64, u32) = if nanos_sum >= NANOS_PER_SEC {
            (1, nanos_sum - NANOS_PER_SEC)
        } else {
            (0, nanos_sum)
        };
        if self.secs <= u64::MAX - carry && other.secs <= u64::MAX - carry - self.secs {
            TimeSpan { secs: self.secs + other.secs + carry, nanos }
        } else {
            TimeSpan { secs: u64::MAX, nanos: NANOS_PER_SEC - 1 }
        }
    }
}

/// A throughput: a byte quantity (with its unit label) per time span
/// (with its unit label).
#[derive(Debug, Clone, Copy, PartialEq, Eq)]
pub struct ByteSpeed {
    /// The byte quantity and its unit label.
    pub dividend: (u64, &'static str),
    /// The time span and its unit label.
    pub divisor: (TimeSpan, &'static str),
}

/// The factor of the largest SI size unit that is not above `v`
/// (for `1 <= v`, up to petabytes).
pub open spec fn spec_si_factor(v: int) -> int {
    if v < 1_000 {
        1
    } else if v < 1_000_000 {
        1_000
    } else if v < 1_000_000_000 {
        1_000_000
    } else if v < 1_000_000_000_000 {
        1_000_000_000
    } else if v < 1_000_000_000_000_000 {
        1_000_000_000_000
    } else {
        1_000_000_000_000_000
    }
}

/// The label of the largest SI size unit that is not above `v`.
pub open spec fn spec_si_label(v: int) -> Seq<char> {
    if v < 1_000 {
        "B"@
    } else if v < 1_000_000 {
        "KB"@
    } else if v < 1_000_000_000 {
        "MB"@
    } else if v < 1_000_000_000_000 {
        "GB"@
    } else if v < 1_000_000_000_000_000 {
        "TB"@
    } else {
        "PB"@
    }
}

impl ByteSpeed {
    /// One byte per second.
    pub fn bps() -> (r: ByteSpeed)
        ensures
            r.dividend.0 == 1,
            r.dividend.1@ == "B"@,
            r.divisor.0.secs == 1,
            r.divisor.0.nanos == 0,
            r.divisor.1@ == "s"@,
    {
        ByteSpeed { dividend: (1, "B"), divisor: (TimeSpan::from_secs(1), "s") }
    }

    /// The throughput of `qty` bytes moved over `duration`: whole bytes
    /// per second, saturating at the largest representable quantity. A
    /// zero quantity or an empty duration yields one byte per second
    /// rather than a division by zero.
    pub fn throughput(qty: usize, duration: TimeSpan) -> (r: ByteSpeed)
        requires
            duration.wf(),
        ensures
            r.dividend.1@ == "B"@,
            r.divisor.0.secs == 1 && r.divisor.0.nanos == 0,
            r.divisor.1@ == "s"@,
            qty == 0 || duration.spec_nanos() == 0 ==> r.dividend.0 == 1,
            qty > 0 && duration.spec_nanos() > 0 ==> r.dividend.0 as int == (if qty
                * 1_000_000_000 / duration.spec_nanos() <= u64::MAX {
                qty * 1_000_000_000 / duration.spec_nanos()
            } else {
                u64::MAX as int
            }),
    {
        if qty == 0 || duration.is_zero() {
            return ByteSpeed::bps();
        }
        let total_nanos: u128 = (duration.secs as u128) * 1_000_000_000 + (duration.nanos as u128);
        let per_sec: u128 = (qty as u128) * 1_000_000_000 / total_nanos;
        let clamped: u64 = if per_sec > u64::MAX as u128 {
            u64::MAX
        } else {
            per_sec as u64
        };
        ByteSpeed { dividend: (clamped, "B"), divisor: (TimeSpan::from_secs(1), "s") }
    }

    /// Scale a speed's byte quantity by a factor.
    pub fn mul(value: u64, speed: ByteSpeed) -> (r: ByteSpeed)
        requires
            value * speed.dividend.0 <= u64::MAX,
        ensures
            r.dividend.0 == value * speed.dividend.0,
            r.dividend.1 == speed.dividend.1,
            r.divisor == speed.divisor,
    {
        ByteSpeed {
            dividend: (value * speed.dividend.0, speed.dividend.1),
            divisor: speed.divisor,
        }
    }

    /// Reduce the byte quantity to the largest SI unit that keeps it at
    /// least 1: the quantity divided by the unit's factor, labelled with
    /// that unit.
    pub fn reduce(self) -> (r: ByteSpeed)
        requires
            1 <= self.dividend.0,
            self.dividend.0 < 1_000_000_000_000_000_000,
        ensures
            r.dividend.0 as int == self.dividend.0 as int / spec_si_factor(
                self.dividend.0 as int,
            ),
            r.dividend.1@ == spec_si_label(self.dividend.0 as int),
            r.divisor == self.divisor,
    {
        let v = self.dividend.0;
        let (scaled, label): (u64, &'static str) = if v < 1_000 {
            (v, "B")
        } else if v < 1_000_000 {
            (v / 1_000, "KB")
        } else if v < 1_000_000_000 {
            (v / 1_000_000, "MB")
        } else if v < 1_000_000_000_000 {
            (v / 1_000_000_000, "GB")
        } else if v < 1_000_000_000_000_000 {
            (v / 1_000_000_000_000, "TB")
        } else {
            (v / 1_000_000_000_000_000, "PB")
        };
        ByteSpeed { dividend: (scaled, label), divisor: self.divisor }
    }
}

/// A display scaling: a factor and the ladder of unit names it steps
/// through, with the name of the measured quantity.
#[derive(Debug, Clone, Copy)]
pub struct Scaling {
    /// The step factor between consecutive unit names.
    pub factor: usize,
    /// The unit names, smallest first.
    pub names: &'static [&'static str],
    /// The name of the measured quantity.
    pub quantity_name: &'static str,
}

/// A display unit: a scaling plus the base unit's name.
#[derive(Debug, Clone, Copy)]
pub struct Unit {
    /// How the value scales through unit prefixes.
    pub scaling: Scaling,
    /// The base unit's name.
    pub name: &'static str,
}

/// A numeric value tagged with its display unit.
#[derive(Debug, Clone, Copy)]
pub struct Value<T>(pub T, pub Unit);

/// An inclusive range of time spans.
#[derive(Debug, Clone, Copy, PartialEq, Eq, Structural)]
pub struct DurationRange(pub TimeSpan, pub TimeSpan);

impl DurationRange {
    /// The range from `min` to `max`, inclusive.
    pub fn new(min: TimeSpan, max: TimeSpan) -> (r: DurationRange)
        ensures
            r.0 == min,
            r.1 == max,
    {
        DurationRange(min, max)
    }

    /// Whether `duration` lies inside the range, inclusive on both ends.
    pub fn contains(&self, duration: TimeSpan) -> (r: bool)
        requires
            self.0.wf(),
            self.1.wf(),
            duration.wf(),
        ensures
            r == (self.0.spec_nanos() <= duration.spec_nanos() <= self.1.spec_nanos()),
    {
        self.0.le(&duration) && duration.le(&self.1)
    }

    /// The length of the range: the absolute difference of its ends.
    pub fn len(&self) -> (r: TimeSpan)
        requires
            self.0.wf(),
            self.1.wf(),
        ensures
            r.wf(),
            r.spec_nanos() == if self.1.spec_nanos() >= self.0.spec_nanos() {
                self.1.spec_nanos() - self.0.spec_nanos()
            } else {
                self.0.spec_nanos() - self.1.spec_nanos()
            },
    {
        self.1.abs_diff(&self.0)
    }

    /// The unit-aligned range around `value`: each part of `value` is
    /// rounded down to a multiple of the corresponding part of `unit`,
    /// and the range spans one unit up from there (saturating).
    pub fn unit_range(value: TimeSpan, unit: TimeSpan) -> (r: DurationRange)
        requires
            value.wf(),
            unit.wf(),
            unit.secs > 0,
            unit.nanos > 0,
        ensures
            r.0.secs == value.secs as int - value.secs as int % unit.secs as int,
            r.0.nanos == value.nanos as int - value.nanos as int % unit.nanos as int,
            r.0.wf(),
            r.1.wf(),
            r.1.spec_nanos() == if r.0.spec_nanos() + unit.spec_nanos() <= spec_max_span_nanos() {
                r.0.spec_nanos() + unit.spec_nanos()
            } else {
                spec_max_span_nanos()
            },
    {
        proof {
            vstd::arithmetic::div_mod::lemma_mod_decreases(value.secs as nat, unit.secs as nat);
            vstd::arithmetic::div_mod::lemma_mod_decreases(
                value.nanos as nat,
                unit.nanos as nat,
            );
        }
        let min = TimeSpan {
            secs: value.secs - (value.secs % unit.secs),
            nanos: value.nanos - (value.nanos % unit.nanos),
        };
        let max = min.saturating_add(&unit);
        DurationRange(min, max)
    }
}

/// Round a number down to the nearest multiple of the largest power of
/// `base` that is not above it.
pub trait RoundToUnit {
    /// Round `self` down to a multiple of a unit of `base`: 0 below
    /// `base`, else `self - self % u` for the largest power `u` of
    /// `base` with `u <= self`.
    fn round_to_unit(self, base: Self) -> Self;
}

/// `u` is the power of `base` that brackets `v`: `u <= v < u * base`.
pub open spec fn is_bracketing_power(u: int, v: int, base: int) -> bool {
    &&& exists|k: nat| u == pow(base, k)
    &&& u <= v
    &&& v < u * base
}

/// Round `v` down to a multiple of the bracketing power of `base`.
fn round_to_unit_u64(v: u64, base: u64) -> (r: u64)
    requires
        base >= 2,
    ensures
        v < base ==> r == 0,
        v >= base ==> exists|u: int|
            #[trigger] is_bracketing_power(u, v as int, base as int) && r == v as int - v as int
                % u,
{
    if v < base {
        return 0;
    }
    let mut unit: u64 = base;
    let ghost mut k: nat = 1nat;
    proof {
        assert(pow(base as int, 1) == base) by {
            vstd::arithmetic::power::lemma_pow1(base as int);
        }
    }
    loop
        invariant
            base >= 2,
            v >= base,
            unit >= base,
            unit as int <= v,
            unit as int == pow(base as int, k),
        decreases v - unit,
    {
        let ghost vi = v as int;
        let ghost bi = base as int;
        let ghost ui = unit as int;
        if v / base < unit {
            proof {
                vstd::arithmetic::div_mod::lemma_fundamental_div_mod(vi, bi);
                assert(vi < ui * bi) by (nonlinear_arith)
                    requires
                        vi / bi <= ui - 1,
                        vi == bi * (vi / bi) + vi % bi,
                        0 <= vi % bi < bi,
                        bi >= 2,
                ;
                assert(is_bracketing_power(ui, vi, bi));
            }
            return v - (v % unit);
        }
        proof {
            vstd::arithmetic::div_mod::lemma_fundamental_div_mod(vi, bi);
            assert(ui * bi <= vi) by (nonlinear_arith)
                requires
                    ui <= vi / bi,
                    vi == bi * (vi / bi) + vi % bi,
                    0 <= vi % bi,
                    bi >= 2,
            ;
            assert(ui * bi == pow(bi, (k + 1) as nat)) by {
                vstd::arithmetic::power::lemma_pow_adds(bi, k, 1);
                vstd::arithmetic::power::lemma_pow1(bi);
            }
            assert(ui * bi > ui) by (nonlinear_arith)
                requires
                    ui >= 2,
                    bi >= 2,
            ;
            k = (k + 1) as nat;
        }
        unit = unit * base;
    }
}

impl RoundToUnit for u64 {
    fn round_to_unit(self, base: Self) -> Self {
        if base < 2 {
            0
        } else {
            round_to_unit_u64(self, base)
        }
    }
}

impl RoundToUnit for usize {
    fn round_to_unit(self, base: Self) -> Self {
        if base < 2 {
            0
        } else {
            round_to_unit_u64(self as u64, base as u64) as usize
        }
    }
}

} // verus!
