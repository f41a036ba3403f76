//! The family's plain value types as this facade carries them: device time
//! and the PCM format of a block.

use vstd::prelude::*;

verus! {

/// Monotonic microseconds since the device epoch.
#[derive(Debug, Clone, Copy, PartialEq, Eq, Default)]
pub struct Micros(pub u64);

/// Sample encoding of one channel value.
#[derive(Debug, Clone, Copy, PartialEq, Eq)]
pub enum SampleFormat {
    /// Signed 16-bit little-endian.
    I16,
    /// Signed 24-bit in the top bits of a 32-bit little-endian word.
    I24In32,
    /// Signed 32-bit little-endian.
    I32,
    /// IEEE 754 binary32 little-endian.
    F32,
}

/// Bytes per single-channel sample.
pub open spec fn sample_bytes(s: SampleFormat) -> nat {
    match s {
        SampleFormat::I16 => 2,
        _ => 4,
    }
}

impl SampleFormat {
    /// Bytes per single-channel sample.
    pub fn bytes(self) -> (n: usize)
        ensures
            n == sample_bytes(self),
    {
        match self {
            SampleFormat::I16 => 2,
            SampleFormat::I24In32 => 4,
            SampleFormat::I32 => 4,
            SampleFormat::F32 => 4,
        }
    }
}

/// Rate, channel count and sample encoding.
#[derive(Debug, Clone, Copy, PartialEq, Eq)]
pub struct PcmFormat {
    /// Frames per second.
    pub sample_rate_hz: u32,
    /// Interleaved channels per frame.
    pub channels: u8,
    /// Encoding of each channel value.
    pub sample: SampleFormat,
}

/// Bytes per sample frame (all channels).
pub open spec fn frame_bytes(f: PcmFormat) -> nat {
    sample_bytes(f.sample) * (f.channels as nat)
}

/// Bytes that hold `micros` of audio in format `f`, rounded down to a whole
/// frame.
pub open spec fn bytes_for_micros(f: PcmFormat, micros: nat) -> nat {
    ((f.sample_rate_hz as nat) * micros / 1_000_000) * frame_bytes(f)
}

} // verus!
