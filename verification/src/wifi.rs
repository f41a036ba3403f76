//! The network, Arduino-shaped: `begin` or `host` once, then `local_ip`.

use vstd::prelude::*;

use crate::board::{Board, Facade, IpAddress, board_call};
use crate::error::{self, Error};

verus! {

/// Join `ssid` with `psk`; returns once joined. `false` (and the recorded
/// error) when refused or no board is installed.
pub fn begin<B: Board>(f: &mut Facade<B>, ssid: &str, psk: &str) -> (ok: bool)
    ensures
        ok == (final(f).last is None),
        old(f).board is None ==> !ok && final(f).last == Some(Error::NoBoard),
        board_call(*old(f), *final(f)),
        old(f).board matches Some(b0) ==> exists|m: &mut B, r: Result<(), Error>|
            mut_ref_current(m) == b0 && final(f).board == Some(mut_ref_future(m)) && #[trigger] call_ensures(
                B::wifi_begin,
                (m, ssid, psk),
                r,
            ) && ok == r is Ok && final(f).last == (match r {
                Ok(_) => None,
                Err(e) => Some(e),
            }),
{
    let r = match &mut f.board {
        Some(b) => b.wifi_begin(ssid, psk),
        None => Err(Error::NoBoard),
    };
    error::ok(f, r)
}

/// Host an access point named `ssid` with `psk` instead of joining one.
/// `false` (and the recorded error) when the board has no access-point mode
/// or refuses the arguments.
pub fn host<B: Board>(f: &mut Facade<B>, ssid: &str, psk: &str) -> (ok: bool)
    ensures
        ok == (final(f).last is None),
        old(f).board is None ==> !ok && final(f).last == Some(Error::NoBoard),
        board_call(*old(f), *final(f)),
        old(f).board matches Some(b0) ==> exists|m: &mut B, r: Result<(), Error>|
            mut_ref_current(m) == b0 && final(f).board == Some(mut_ref_future(m)) && #[trigger] call_ensures(
                B::wifi_host,
                (m, ssid, psk),
                r,
            ) && ok == r is Ok && final(f).last == (match r {
                Ok(_) => None,
                Err(e) => Some(e),
            }),
{
    let r = match &mut f.board {
        Some(b) => b.wifi_host(ssid, psk),
        None => Err(Error::NoBoard),
    };
    error::ok(f, r)
}

/// The interface address, once joined or once hosting; `None` without a
/// board.
pub fn local_ip<B: Board>(f: &Facade<B>) -> (ip: Option<IpAddress>)
    ensures
        f.board is None ==> ip is None,
        f.board matches Some(b) ==> call_ensures(B::local_ip, (&b,), ip),
{
    match &f.board {
        Some(b) => b.local_ip(),
        None => None,
    }
}

/// Whether `begin` or `host` has succeeded: the board has an address.
pub fn connected<B: Board>(f: &Facade<B>) -> (c: bool)
    ensures
        c ==> f.board is Some,
        f.board matches Some(b) ==> exists|ip: Option<IpAddress>| #[trigger] call_ensures(B::local_ip, (&b,), ip)
            && c == ip is Some,
{
    local_ip(f).is_some()
}

} // verus!
