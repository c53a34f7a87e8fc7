//! Conversion between audio sampling frequencies and prescaler settings.
//!
//! The sampling frequency reached by the peripheral is
//! `i2s_clock / (coef * division)`, where `division = 2 * div + odd` and `coef` is
//! 256 when the master clock output is enabled, otherwise twice the channel width
//! (32 for 16 bit channels, 64 for 32 bit channels).
use vstd::prelude::*;

use crate::driver::DataFormat;

verus! {

/// Nearest integer to `n / d`, halves rounded up: `floor(n / d + 1/2)`.
pub open spec fn round_div(n: int, d: int) -> int {
    (2 * n + d) / (2 * d)
}

proof fn lemma_half_up(n: int, d: int, h: int, q: int)
    requires
        n >= 0,
        d > 0,
        2 * h <= d,
        d <= 2 * h + 1,
        h >= 0,
        q == (n + h) / d,
    ensures
        q == round_div(n, d),
        (2 * q - 1) * d <= 2 * n,
        2 * n < (2 * q + 1) * d,
        q <= n,
{
    assert(q * d <= n + h && n + h < (q + 1) * d) by (nonlinear_arith)
        requires
            q == (n + h) / d,
            d > 0,
            n + h >= 0,
    ;
    assert((2 * q - 1) * d <= 2 * n && 2 * n < (2 * q + 1) * d) by (nonlinear_arith)
        requires
            q * d <= n + h,
            n + h + 1 <= (q + 1) * d,
            2 * h <= d,
            d <= 2 * h + 1,
    ;
    assert(q == (2 * n + d) / (2 * d)) by (nonlinear_arith)
        requires
            (2 * q - 1) * d <= 2 * n,
            2 * n < (2 * q + 1) * d,
            d > 0,
    ;
    assert(q <= n) by (nonlinear_arith)
        requires
            q * d <= n + h,
            2 * h <= d,
            d > 0,
            n >= 0,
            2 * n < (2 * q + 1) * d,
    ;
}

/// Rounding integer division: the integer nearest to `n / d`, ties rounded up.
pub fn div_round(n: u32, d: u32) -> (r: u32)
    requires
        d > 0,
    ensures
        r == round_div(n as int, d as int),
        (2 * r - 1) * d <= 2 * n,
        2 * n < (2 * r + 1) * d,
{
    let half: u32 = d >> 1u32;
    assert(half == d / 2) by (bit_vector)
        requires
            half == d >> 1u32,
    ;
    let q: u64 = (n as u64 + half as u64) / (d as u64);
    proof {
        lemma_half_up(n as int, d as int, half as int, q as int);
    }
    q as u32
}


/// True when the data format uses 32 bit wide channels.
pub open spec fn wide_channel(format: DataFormat) -> bool {
    !(format is Data16Channel16)
}

/// The factor between the prescaler division and `i2s_clock / sample_rate`, given the master
/// clock setting and the channel width.
pub open spec fn channel_coef(master_clock: bool, wide: bool) -> int {
    if master_clock {
        256
    } else if wide {
        64
    } else {
        32
    }
}

/// The factor between the prescaler division and `i2s_clock / sample_rate`.
pub open spec fn coef_spec(master_clock: bool, format: DataFormat) -> int {
    channel_coef(master_clock, wide_channel(format))
}

/// The division `2 * div + odd` programmed by a prescaler pair.
pub open spec fn division_of(odd: bool, div: u8) -> int {
    2 * div + if odd { 1int } else { 0int }
}

/// Sampling frequency reached with the given clock, factor and division.
pub open spec fn rate_of(i2s_clock: int, coef: int, division: int) -> int {
    i2s_clock / (coef * division)
}

/// Bring a division into the range the prescaler can hold.
pub open spec fn clamp_division(division: int) -> int {
    if division < 4 {
        4
    } else if division > 511 {
        511
    } else {
        division
    }
}

/// The division chosen for a requested frequency: the nearest one, clamped to `[4, 511]`.
pub open spec fn requested_division(
    i2s_clock: int,
    freq: int,
    master_clock: bool,
    format: DataFormat,
) -> int {
    clamp_division(round_div(i2s_clock, coef_spec(master_clock, format) * freq))
}

/// The division for a required frequency: defined only when it reaches the frequency exactly
/// and fits the prescaler.
pub open spec fn required_division(
    i2s_clock: int,
    freq: int,
    master_clock: bool,
    format: DataFormat,
) -> Option<int> {
    let cf = coef_spec(master_clock, format) * freq;
    if i2s_clock % cf == 0 && 4 <= i2s_clock / cf <= 511 {
        Some(i2s_clock / cf)
    } else {
        None
    }
}

/// The prescaler factor: 256 with the master clock output, otherwise 32 for 16 bit channels and
/// 64 for 32 bit channels.
pub fn coef(master_clock: bool, format: DataFormat) -> (r: u32)
    ensures
        r == coef_spec(master_clock, format),
{
    if master_clock {
        return 256;
    }
    match format {
        DataFormat::Data16Channel16 => 32,
        _ => 64,
    }
}

/// Split a division in `[4, 511]` into its prescaler pair `(odd, div)`.
fn split_division(division: u32) -> (r: (bool, u8))
    requires
        4 <= division <= 511,
    ensures
        division_of(r.0, r.1) == division,
        r.1 >= 2,
{
    (division % 2 == 1, (division / 2) as u8)
}

proof fn lemma_coef_product(c: int, freq: int)
    requires
        32 <= c <= 256,
        0 < freq <= u32::MAX,
    ensures
        0 < c * freq <= 256 * u32::MAX,
{
    assert(0 < c * freq <= 256 * u32::MAX) by (nonlinear_arith)
        requires
            32 <= c <= 256,
            0 < freq <= u32::MAX,
    ;
}

proof fn lemma_far_below_one(n: int, d: int)
    requires
        0 <= n < d,
    ensures
        round_div(n, d) <= 1,
{
    assert((2 * n + d) / (2 * d) <= 1) by (nonlinear_arith)
        requires
            0 <= n < d,
    ;
}

/// Prescaler pair for a requested frequency: the division nearest to
/// `i2s_clock / (coef * freq)`, clamped to `[4, 511]`. It always succeeds.
pub fn request_prescaler(i2s_clock: u32, freq: u32, master_clock: bool, format: DataFormat) -> (r: (
    bool,
    u8,
))
    requires
        freq > 0,
    ensures
        division_of(r.0, r.1) == requested_division(
            i2s_clock as int,
            freq as int,
            master_clock,
            format,
        ),
        4 <= division_of(r.0, r.1) <= 511,
        r.1 >= 2,
{
    let c = coef(master_clock, format);
    proof {
        lemma_coef_product(c as int, freq as int);
    }
    let d: u64 = c as u64 * freq as u64;
    if d > u32::MAX as u64 {
        proof {
            lemma_far_below_one(i2s_clock as int, d as int);
        }
        return (false, 2);
    }
    let division = div_round(i2s_clock, d as u32);
    if division < 4 {
        (false, 2)
    } else if division > 511 {
        (true, 255)
    } else {
        split_division(division)
    }
}

/// Prescaler pair for a required frequency: `Some` exactly when `coef * freq` divides
/// `i2s_clock` and the quotient lies in `[4, 511]`, `None` otherwise.
pub fn require_prescaler(i2s_clock: u32, freq: u32, master_clock: bool, format: DataFormat) -> (r:
    Option<(bool, u8)>)
    requires
        freq > 0,
    ensures
        r is Some <==> required_division(
            i2s_clock as int,
            freq as int,
            master_clock,
            format,
        ) is Some,
        r matches Some(p) ==> Some(division_of(p.0, p.1)) == required_division(
            i2s_clock as int,
            freq as int,
            master_clock,
            format,
        ) && p.1 >= 2,
{
    let c = coef(master_clock, format);
    proof {
        lemma_coef_product(c as int, freq as int);
    }
    let d: u64 = c as u64 * freq as u64;
    let clock = i2s_clock as u64;
    if clock % d != 0 {
        return None;
    }
    let division = clock / d;
    if division < 4 || division > 511 {
        return None;
    }
    Some(split_division(division as u32))
}

/// Sampling frequency reached by a prescaler pair: `i2s_clock / (coef * (2 * div + odd))`,
/// where the factor follows from the master clock setting and the channel width.
pub fn sample_rate_of(i2s_clock: u32, master_clock: bool, wide: bool, odd: bool, div: u8) -> (r:
    u32)
    requires
        div >= 2,
    ensures
        r == rate_of(i2s_clock as int, channel_coef(master_clock, wide), division_of(odd, div)),
{
    let c: u32 = if master_clock {
        256
    } else if wide {
        64
    } else {
        32
    };
    let division: u32 = 2 * div as u32 + if odd { 1u32 } else { 0u32 };
    i2s_clock / (c * division)
}

} // verus!
