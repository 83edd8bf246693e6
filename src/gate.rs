//! The duration gate: captures no longer than the threshold are discarded,
//! longer ones are dispatched.
use crate::wav::BYTES_PER_SAMPLE;
use vstd::prelude::*;

verus! {

/// Captures must last strictly longer than this many milliseconds to be dispatched.
pub const DISPATCH_THRESHOLD_MS: u64 = 1000;

/// Bytes of 16-bit PCM per second at this rate and channel count.
pub open spec fn bytes_per_second(sample_rate: int, channels: int) -> int {
    sample_rate * channels * BYTES_PER_SAMPLE
}

/// Whether `data_size` bytes of PCM last longer than the threshold. A format
/// with no samples per second describes no duration and never qualifies.
pub open spec fn above_threshold(data_size: int, sample_rate: int, channels: int) -> bool {
    &&& sample_rate > 0
    &&& channels > 0
    &&& data_size * 1000 > DISPATCH_THRESHOLD_MS * bytes_per_second(sample_rate, channels)
}

/// Duration in whole milliseconds, rounded down; zero for a degenerate format.
pub open spec fn duration_ms_of(data_size: int, sample_rate: int, channels: int) -> int {
    if sample_rate > 0 && channels > 0 {
        (data_size * 1000) / bytes_per_second(sample_rate, channels)
    } else {
        0
    }
}

fn bytes_per_second_exec(sample_rate: u32, channels: u16) -> (r: u64)
    ensures
        r == bytes_per_second(sample_rate as int, channels as int),
{
    assert(sample_rate as int * channels as int * 2 <= u32::MAX as int * u16::MAX as int * 2)
        by (nonlinear_arith);
    sample_rate as u64 * channels as u64 * BYTES_PER_SAMPLE as u64
}

/// The duration gate: dispatch only what lasts strictly longer than the
/// threshold, so a capture of exactly one second is discarded.
pub fn should_dispatch(data_size: u32, sample_rate: u32, channels: u16) -> (r: bool)
    ensures
        r == above_threshold(data_size as int, sample_rate as int, channels as int),
{
    if sample_rate == 0 || channels == 0 {
        return false;
    }
    let bps = bytes_per_second_exec(sample_rate, channels);
    assert(bps * DISPATCH_THRESHOLD_MS <= u32::MAX as int * u16::MAX as int * 2 * 1000)
        by (nonlinear_arith)
        requires
            bps == sample_rate as int * channels as int * 2,
            sample_rate <= u32::MAX,
            channels <= u16::MAX,
    ;
    data_size as u64 * 1000 > DISPATCH_THRESHOLD_MS * bps
}

/// Duration of `data_size` bytes of PCM in milliseconds, rounded down.
pub fn duration_millis(data_size: u32, sample_rate: u32, channels: u16) -> (r: u64)
    ensures
        r == duration_ms_of(data_size as int, sample_rate as int, channels as int),
{
    if sample_rate == 0 || channels == 0 {
        return 0;
    }
    let bps = bytes_per_second_exec(sample_rate, channels);
    assert(bps > 0) by (nonlinear_arith)
        requires
            bps == sample_rate as int * channels as int * 2,
            sample_rate > 0,
            channels > 0,
    ;
    data_size as u64 * 1000 / bps
}

} // verus!
