//! The presence sensor, Arduino-shaped: `begin` once, `read` in the loop.
//!
//! A sketch does not learn which sensor the board has: a millimetre-wave
//! module on a UART and Wi-Fi channel sensing both answer in the one record
//! ([`Presence`]).

use vstd::prelude::*;

pub use rusty_esp_signal_core::radar::presence::{ENCODED_LEN, Occupancy, Presence};
use rusty_esp_signal_core::radar::presence::Presence as SignalReading;

use crate::board::{Board, Facade, board_call};
use crate::error::{self, Error};

verus! {

/// One presence reading, as the signal package encodes it for the wire.
#[verifier::external_type_specification]
#[verifier::external_body]
pub struct ExPresence(SignalReading);

/// What the presence sensor is asked for.
#[derive(Debug, Clone, Copy, PartialEq, Eq)]
pub struct Config {
    /// The module's UART baud rate. Ignored by a sensor that is not on a
    /// UART.
    pub baud: u32,
    /// Ask for per-gate energies as well as the summary.
    pub engineering: bool,
}

impl Config {
    /// An HLK-LD2410 at its default baud, summary readings only.
    pub fn ld2410() -> (c: Self)
        ensures
            c == (Config { baud: 256_000, engineering: false }),
    {
        Config { baud: 256_000, engineering: false }
    }

    /// The same sensor at another baud.
    pub fn at_baud(self, baud: u32) -> (c: Self)
        ensures
            c == (Config { baud, ..self }),
    {
        let mut c = self;
        c.baud = baud;
        c
    }

    /// Ask for per-gate energies.
    pub fn with_engineering(self) -> (c: Self)
        ensures
            c == (Config { engineering: true, ..self }),
    {
        let mut c = self;
        c.engineering = true;
        c
    }
}

impl Default for Config {
    fn default() -> (c: Self)
        ensures
            c == (Config { baud: 256_000, engineering: false }),
    {
        Config::ld2410()
    }
}

/// Start the presence sensor with `config`. `false` (and the recorded
/// error) when the board has none, or none is installed; the configuration
/// is kept only when it succeeds.
pub fn begin<B: Board>(f: &mut Facade<B>, config: Config) -> (ok: bool)
    ensures
        ok == (final(f).last is None),
        old(f).board is None ==> !ok && final(f).last == Some(Error::NoBoard),
        ok ==> final(f).radar_config == Some(config),
        !ok ==> final(f).radar_config == old(f).radar_config,
        board_call(*old(f), Facade { radar_config: old(f).radar_config, ..*final(f) }),
        old(f).board matches Some(b0) ==> exists|m: &mut B, r: Result<(), Error>|
            mut_ref_current(m) == b0 && final(f).board == Some(mut_ref_future(m)) && #[trigger] call_ensures(
                B::radar_begin,
                (m, &config),
                r,
            ) && ok == r is Ok && final(f).last == (match r {
                Ok(_) => None,
                Err(e) => Some(e),
            }),
{
    let r = match &mut f.board {
        Some(b) => b.radar_begin(&config),
        None => Err(Error::NoBoard),
    };
    let ok = error::ok(f, r);
    if ok {
        f.radar_config = Some(config);
    }
    ok
}

/// The newest reading since the last call, or `None` when none is ready.
/// A refusal reads as `None` too, and is recorded; an answer clears the
/// record.
pub fn read<B: Board>(f: &mut Facade<B>) -> (reading: Option<Presence>)
    ensures
        old(f).board is None ==> reading is None && final(f).last == Some(Error::NoBoard),
        board_call(*old(f), *final(f)),
        old(f).board matches Some(b0) ==> exists|m: &mut B, r: Result<Option<Presence>, Error>|
            mut_ref_current(m) == b0 && final(f).board == Some(mut_ref_future(m)) && #[trigger] call_ensures(
                B::radar_read,
                (m,),
                r,
            ) && reading == (match r {
                Ok(x) => x,
                Err(_) => None,
            }) && final(f).last == (match r {
                Ok(_) => None,
                Err(e) => Some(e),
            }),
{
    let r = match &mut f.board {
        Some(b) => b.radar_read(),
        None => Err(Error::NoBoard),
    };
    error::some(f, r)
}

/// The configuration `begin` was given, once it succeeded.
pub fn config<B>(f: &Facade<B>) -> (c: Option<Config>)
    ensures
        c == f.radar_config,
{
    f.radar_config
}

/// Forget the configuration (tests; a sketch that ends).
pub fn end<B>(f: &mut Facade<B>)
    ensures
        *final(f) == (Facade { radar_config: None, ..*old(f) }),
{
    f.radar_config = None;
}

} // verus!
