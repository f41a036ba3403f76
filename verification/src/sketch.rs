//! `setup` once, `loop` forever: what the runner asks of the board around
//! the sketch's own functions.

use vstd::prelude::*;

use crate::board::{Board, BootRecord, Facade, board_call};
use crate::error::{self, Error};

verus! {

/// How long a loop pass may take before the board reboots: the sketch's
/// promise to its watchdog.
pub const LIVENESS_TIMEOUT_S: u32 = 30;

/// Before `setup`: read the boot record and arm the watchdog for
/// [`LIVENESS_TIMEOUT_S`] — both only with a board installed, in that order.
/// The record the board reports is kept; a refused watchdog is recorded; a
/// missing or refused boot record is not an error.
pub fn begin_run<B: Board>(f: &mut Facade<B>)
    ensures
        old(f).board is None ==> *final(f) == *old(f),
        board_call(*old(f), Facade { boot: old(f).boot, ..*final(f) }),
        final(f).boot == old(f).boot || (final(f).boot matches Some(_) && old(f).board is Some),
        old(f).board matches Some(b0) ==> exists|
            m1: &mut B,
            rec: Result<Option<BootRecord>, Error>,
            m2: &mut B,
            armed: Result<(), Error>,
        |
            #![trigger call_ensures(B::boot_record, (m1,), rec), call_ensures(B::liveness_begin, (m2, LIVENESS_TIMEOUT_S), armed)]
            mut_ref_current(m1) == b0 && mut_ref_current(m2) == mut_ref_future(m1) && final(f).board == Some(
                mut_ref_future(m2),
            ) && call_ensures(B::boot_record, (m1,), rec) && call_ensures(
                B::liveness_begin,
                (m2, LIVENESS_TIMEOUT_S),
                armed,
            ) && final(f).boot == (match rec {
                Ok(Some(r)) => Some(r),
                _ => old(f).boot,
            }) && final(f).last == (match armed {
                Err(e) => Some(e),
                Ok(_) => old(f).last,
            }),
{
    if f.board.is_none() {
        return;
    }
    let record = match &mut f.board {
        Some(b) => b.boot_record(),
        None => Err(Error::NoBoard),
    };
    if let Ok(Some(r)) = record {
        f.boot = Some(r);
    }
    let armed = match &mut f.board {
        Some(b) => b.liveness_begin(LIVENESS_TIMEOUT_S),
        None => Err(Error::NoBoard),
    };
    if let Err(e) = armed {
        error::record(f, e);
    }
}

/// After a pass: the watchdog fed (with a board installed); what the board
/// answers is not recorded.
pub fn end_pass<B: Board>(f: &mut Facade<B>)
    ensures
        board_call(*old(f), *final(f)),
        final(f).last == old(f).last,
        old(f).board is None ==> *final(f) == *old(f),
        old(f).board matches Some(b0) ==> exists|m: &mut B, r: Result<(), Error>|
            mut_ref_current(m) == b0 && final(f).board == Some(mut_ref_future(m)) && #[trigger] call_ensures(
                B::liveness_feed,
                (m,),
                r,
            ),
{
    if let Some(b) = &mut f.board {
        let _ = b.liveness_feed();
    }
}

/// Why this boot happened and how many the board has counted, once the
/// runner has read it.
pub fn boot_record<B>(f: &Facade<B>) -> (r: Option<BootRecord>)
    ensures
        r == f.boot,
{
    f.boot
}

/// Restart the board, as the RESET button would. On a chip this never
/// returns; `false` (and the recorded error) when the board cannot restart
/// itself, and then the sketch keeps running.
pub fn restart<B: Board>(f: &mut Facade<B>) -> (ok: bool)
    ensures
        ok == (final(f).last is None),
        old(f).board is None ==> !ok && final(f).last == Some(Error::NoBoard),
        board_call(*old(f), *final(f)),
        old(f).board matches Some(b0) ==> exists|m: &mut B, r: Result<(), Error>|
            mut_ref_current(m) == b0 && final(f).board == Some(mut_ref_future(m)) && #[trigger] call_ensures(
                B::restart,
                (m,),
                r,
            ) && ok == r is Ok && final(f).last == (match r {
                Ok(_) => None,
                Err(e) => Some(e),
            }),
{
    let r = match &mut f.board {
        Some(b) => b.restart(),
        None => Err(Error::NoBoard),
    };
    error::ok(f, r)
}

/// Milliseconds since the board started (0 without a board).
pub fn millis<B: Board>(f: &Facade<B>) -> (ms: u64)
    ensures
        f.board is None ==> ms == 0,
        f.board matches Some(b) ==> call_ensures(B::millis, (&b,), ms),
{
    crate::board::millis(f)
}

} // verus!
