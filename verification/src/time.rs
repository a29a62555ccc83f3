//! Animation time, in microseconds, and its conversion to audio sample indices.

use vstd::prelude::*;

verus! {

/// Integer division rounding towards zero, for a positive divisor.
pub open spec fn trunc_div(a: int, b: int) -> int {
    if a >= 0 {
        a / b
    } else {
        -((-a) / b)
    }
}

/// The time, in microseconds, of the audio sample at index `idx`.
pub open spec fn micros_of_audio_idx(idx: int, sample_rate: int) -> int {
    trunc_div(idx * 1_000_000, sample_rate)
}

/// The index of the audio sample playing at `micros` microseconds.
pub open spec fn audio_idx_of_micros(micros: int, sample_rate: int) -> int {
    trunc_div(micros * sample_rate, 1_000_000)
}

/// A point in (logical) animation time, in microseconds.
#[derive(Clone, Copy, Debug, PartialEq, Eq, PartialOrd, Ord, Hash, Default, Structural)]
pub struct Time(pub i64);

/// A difference between two points in time, in microseconds.
#[derive(Clone, Copy, Debug, PartialEq, Eq, PartialOrd, Ord, Hash, Default, Structural)]
pub struct TimeDiff(pub i64);

/// Divides, rounding towards zero.
fn div_towards_zero(a: i128, b: i128) -> (r: i128)
    requires
        b > 0,
        -0x1_0000_0000_0000_0000_0000_0000 <= a <= 0x1_0000_0000_0000_0000_0000_0000,
    ensures
        r == trunc_div(a as int, b as int),
{
    if a >= 0 {
        a / b
    } else {
        -((-a) / b)
    }
}

proof fn lemma_trunc_div_bounds(a: int, b: int, lo: int, hi: int)
    requires
        b > 0,
        lo <= 0 <= hi,
        lo * b <= a <= hi * b,
    ensures
        lo <= trunc_div(a, b) <= hi,
{
    if a >= 0 {
        assert(a / b <= hi) by (nonlinear_arith)
            requires
                0 <= a <= hi * b,
                b > 0,
        ;
        assert(a / b >= 0) by (nonlinear_arith)
            requires
                0 <= a,
                b > 0,
        ;
    } else {
        assert((-a) / b <= -lo) by (nonlinear_arith)
            requires
                lo * b <= a < 0,
                lo <= 0,
                b > 0,
        {
            assert(-a <= (-lo) * b);
        }
        assert((-a) / b >= 0) by (nonlinear_arith)
            requires
                0 <= -a,
                b > 0,
        ;
    }
}

impl Time {
    /// The start of the animation.
    pub fn zero() -> (r: Time)
        ensures
            r.0 == 0,
    {
        Time(0)
    }

    /// The time `micros` microseconds after the start.
    pub fn from_micros(micros: i64) -> (r: Time)
        ensures
            r.0 == micros,
    {
        Time(micros)
    }

    /// This time in microseconds.
    pub fn as_micros(&self) -> (r: i64)
        ensures
            r == self.0,
    {
        self.0
    }

    /// The time of the audio sample at index `idx`.
    pub fn from_audio_idx(idx: i64, sample_rate: u32) -> (r: Time)
        requires
            sample_rate > 0,
            i64::MIN <= micros_of_audio_idx(idx as int, sample_rate as int) <= i64::MAX,
        ensures
            r.0 == micros_of_audio_idx(idx as int, sample_rate as int),
    {
        Time(TimeDiff::from_audio_idx(idx, sample_rate).0)
    }

    /// The index of the audio sample playing at this time.
    pub fn as_audio_idx(&self, sample_rate: u32) -> (r: i64)
        requires
            sample_rate <= 1_000_000,
        ensures
            r == audio_idx_of_micros(self.0 as int, sample_rate as int),
    {
        let m = self.0 as i128;
        let r = sample_rate as i128;
        assert(i64::MIN * 1_000_000 <= m * r <= i64::MAX * 1_000_000) by (nonlinear_arith)
            requires
                0 <= r <= 1_000_000,
                i64::MIN <= m <= i64::MAX,
        ;
        let prod = m * r;
        proof {
            lemma_trunc_div_bounds(
                prod as int,
                1_000_000,
                i64::MIN as int,
                i64::MAX as int,
            );
        }
        div_towards_zero(prod, 1_000_000) as i64
    }

    /// This time shifted by `diff`.
    pub fn plus(self, diff: TimeDiff) -> (r: Time)
        requires
            i64::MIN <= self.0 + diff.0 <= i64::MAX,
        ensures
            r.0 == self.0 + diff.0,
    {
        Time(self.0 + diff.0)
    }

    /// The time elapsed from `earlier` to this time.
    pub fn minus(self, earlier: Time) -> (r: TimeDiff)
        requires
            i64::MIN <= self.0 - earlier.0 <= i64::MAX,
        ensures
            r.0 == self.0 - earlier.0,
    {
        TimeDiff(self.0 - earlier.0)
    }
}

impl TimeDiff {
    /// A difference of `micros` microseconds.
    pub fn from_micros(micros: i64) -> (r: TimeDiff)
        ensures
            r.0 == micros,
    {
        TimeDiff(micros)
    }

    /// This difference in microseconds.
    pub fn as_micros(&self) -> (r: i64)
        ensures
            r == self.0,
    {
        self.0
    }

    /// The duration of `idx` audio samples.
    pub fn from_audio_idx(idx: i64, sample_rate: u32) -> (r: TimeDiff)
        requires
            sample_rate > 0,
            i64::MIN <= micros_of_audio_idx(idx as int, sample_rate as int) <= i64::MAX,
        ensures
            r.0 == micros_of_audio_idx(idx as int, sample_rate as int),
    {
        let prod = idx as i128 * 1_000_000i128;
        TimeDiff(div_towards_zero(prod, sample_rate as i128) as i64)
    }

    /// The number of audio samples spanning this difference.
    pub fn as_audio_idx(&self, sample_rate: u32) -> (r: i64)
        requires
            sample_rate <= 1_000_000,
        ensures
            r == audio_idx_of_micros(self.0 as int, sample_rate as int),
    {
        Time(self.0).as_audio_idx(sample_rate)
    }
}

/// Sample indices count whole samples, rounding towards zero: before the start,
/// indices mirror those after it; from the start on, index `i` is the sample
/// playing during the `1 / sample_rate` seconds from `i / sample_rate`; one second
/// spans `sample_rate` samples.
pub proof fn law_audio_idx_rounds_towards_zero(micros: int, sample_rate: int)
    requires
        0 < sample_rate <= 1_000_000,
    ensures
        audio_idx_of_micros(-micros, sample_rate) == -audio_idx_of_micros(micros, sample_rate),
        micros >= 0 ==> audio_idx_of_micros(micros, sample_rate) * 1_000_000 <= micros * sample_rate
            < (audio_idx_of_micros(micros, sample_rate) + 1) * 1_000_000,
        audio_idx_of_micros(1_000_000, sample_rate) == sample_rate,
{
    assert((-micros) * sample_rate == -(micros * sample_rate)) by (nonlinear_arith);
    assert(micros >= 0 ==> micros * sample_rate >= 0) by (nonlinear_arith)
        requires
            sample_rate > 0,
    ;
    assert(1_000_000 * sample_rate / 1_000_000 == sample_rate);
}

} // verus!
