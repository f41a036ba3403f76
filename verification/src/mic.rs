//! The microphone, Arduino-shaped: `begin` once, `read` in the loop.

use vstd::prelude::*;

use crate::board::{Board, Facade, Pcm, board_call};
use crate::error::{self, Error};
use crate::units::{PcmFormat, SampleFormat, bytes_for_micros};
use rusty_esp_core::pcm as family;

verus! {

/// What the microphone is asked for.
#[derive(Debug, Clone, Copy, PartialEq, Eq)]
pub struct Config {
    /// Rate, channels and sample format the board should deliver. A board
    /// that cannot (a WAV file has its own) reports what it does deliver in
    /// each [`Pcm`].
    pub format: PcmFormat,
    /// Milliseconds of audio per `read`.
    pub frame_ms: u32,
}

/// `PcmFormat::bytes_for_micros` of the family's PCM format: the bytes that
/// hold `micros` of audio, rounded down to a whole frame. Its source is the
/// two lines `frames = rate * micros / 1_000_000; frames * frame_bytes`,
/// and that is what the contract states; the `requires` leaves out the
/// inputs on which that arithmetic would overflow.
#[verifier::external_body]
fn family_bytes_for_micros(format: PcmFormat, micros: u64) -> (n: usize)
    requires
        (format.sample_rate_hz as nat) * (micros as nat) <= u64::MAX,
        bytes_for_micros(format, micros as nat) <= usize::MAX,
    ensures
        n == bytes_for_micros(format, micros as nat),
{
    let sample = match format.sample {
        SampleFormat::I16 => family::SampleFormat::I16,
        SampleFormat::I24In32 => family::SampleFormat::I24In32,
        SampleFormat::I32 => family::SampleFormat::I32,
        SampleFormat::F32 => family::SampleFormat::F32,
    };
    let rate = format.sample_rate_hz;
    family::PcmFormat { sample_rate_hz: rate, channels: format.channels, sample }.bytes_for_micros(micros)
}

/// The bytes in one block of `c`.
pub open spec fn block_len(c: Config) -> nat {
    bytes_for_micros(c.format, (c.frame_ms as nat) * 1000)
}

impl Config {
    /// 16 kHz mono 16-bit, 20 ms blocks: speech, and what every Janus board
    /// can do.
    pub fn pcm16_16k() -> (c: Self)
        ensures
            c == (Config {
                format: PcmFormat { sample_rate_hz: 16_000, channels: 1, sample: SampleFormat::I16 },
                frame_ms: 20,
            }),
    {
        Config {
            format: PcmFormat { sample_rate_hz: 16_000, channels: 1, sample: SampleFormat::I16 },
            frame_ms: 20,
        }
    }

    /// 48 kHz mono 16-bit, 20 ms blocks.
    pub fn pcm16_48k() -> (c: Self)
        ensures
            c == (Config {
                format: PcmFormat { sample_rate_hz: 48_000, channels: 1, sample: SampleFormat::I16 },
                frame_ms: 20,
            }),
    {
        Config {
            format: PcmFormat { sample_rate_hz: 48_000, channels: 1, sample: SampleFormat::I16 },
            frame_ms: 20,
        }
    }

    /// The same format in blocks of another length.
    pub fn blocks_of_ms(self, frame_ms: u32) -> (c: Self)
        ensures
            c == (Config { frame_ms, ..self }),
    {
        let mut c = self;
        c.frame_ms = frame_ms;
        c
    }

    /// Bytes in one block of this configuration.
    pub fn block_bytes(&self) -> (n: usize)
        requires
            (self.format.sample_rate_hz as nat) * ((self.frame_ms as nat) * 1000) <= u64::MAX,
            block_len(*self) <= usize::MAX,
        ensures
            n == block_len(*self),
    {
        family_bytes_for_micros(self.format, self.frame_ms as u64 * 1000)
    }
}

/// Start the microphone with `config`. `false` (and the recorded error) when
/// the board refuses or none is installed; the configuration is kept only
/// when it succeeds.
pub fn begin<B: Board>(f: &mut Facade<B>, config: Config) -> (ok: bool)
    ensures
        ok == (final(f).last is None),
        old(f).board is None ==> !ok && final(f).last == Some(Error::NoBoard),
        ok ==> final(f).mic_config == Some(config),
        !ok ==> final(f).mic_config == old(f).mic_config,
        board_call(*old(f), Facade { mic_config: old(f).mic_config, ..*final(f) }),
        old(f).board matches Some(b0) ==> exists|m: &mut B, r: Result<(), Error>|
            mut_ref_current(m) == b0 && final(f).board == Some(mut_ref_future(m)) && #[trigger] call_ensures(
                B::mic_begin,
                (m, &config),
                r,
            ) && ok == r is Ok && final(f).last == (match r {
                Ok(_) => None,
                Err(e) => Some(e),
            }),
{
    let r = match &mut f.board {
        Some(b) => b.mic_begin(&config),
        None => Err(Error::NoBoard),
    };
    if r.is_ok() {
        f.mic_config = Some(config);
    }
    error::ok(f, r)
}

/// The next block, if one is ready. `None` with no error recorded means
/// "not yet"; `None` with a recorded error means something is wrong.
pub fn read<B: Board>(f: &mut Facade<B>) -> (block: Option<Pcm>)
    ensures
        old(f).board is None ==> block is None && final(f).last == Some(Error::NoBoard),
        block is Some ==> final(f).last is None,
        board_call(*old(f), *final(f)),
        old(f).board matches Some(b0) ==> exists|m: &mut B, r: Result<Option<Pcm>, Error>|
            mut_ref_current(m) == b0 && final(f).board == Some(mut_ref_future(m)) && #[trigger] call_ensures(
                B::mic_read,
                (m,),
                r,
            ) && final(f).last == (match r {
                Ok(_) => None,
                Err(e) => Some(e),
            }) && block == (match r {
                Ok(v) => v,
                Err(_) => None,
            }),
{
    let r = match &mut f.board {
        Some(b) => b.mic_read(),
        None => Err(Error::NoBoard),
    };
    error::some(f, r)
}

/// The configuration `begin` was given, once it succeeded.
pub fn config<B>(f: &Facade<B>) -> (c: Option<Config>)
    ensures
        c == f.mic_config,
{
    f.mic_config
}

} // verus!
