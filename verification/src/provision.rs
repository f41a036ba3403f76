//! Provisioning, Arduino-shaped: when the board has no network to join, it
//! advertises the provisioning service and a phone writes the Wi-Fi
//! credentials; the sketch joins with them and stores them in the owner's
//! settings, so the next boot needs no phone. The passphrase never appears
//! in what the facade prints.

use vstd::prelude::*;

use crate::board::{Board, Facade, board_call};
use crate::error::{self, Error};
use crate::text::{debug_quoted, decimal, decimal_text, quoted};

verus! {

/// What a phone wrote: the network to join.
#[derive(Clone, PartialEq, Eq)]
pub struct Credentials {
    /// The network name.
    pub ssid: String,
    /// The passphrase; empty for an open network. Never printed.
    pub psk: String,
}

/// The text a credential prints as: its network name as `Debug` writes a
/// string, and only the length of its passphrase, in bytes.
pub open spec fn credentials_text(ssid: Seq<char>, psk_bytes: nat) -> Seq<char> {
    "Credentials { ssid: "@ + debug_quoted(ssid) + ", psk: <"@ + decimal(psk_bytes) + " bytes> }"@
}

impl Credentials {
    /// The credential as it prints — `Credentials { ssid: "…", psk: <N
    /// bytes> }` — with the passphrase's length in place of the passphrase.
    pub fn describe(&self) -> (t: String)
        ensures
            t@ == credentials_text(self.ssid@, (vstd::utf8::encode_utf8(self.psk@).len() as usize) as nat),
    {
        let n = self.psk.as_str().len();
        String::from_str("Credentials { ssid: ").concat(quoted(self.ssid.as_str()).as_str()).concat(", psk: <").concat(
            decimal_text(n).as_str(),
        ).concat(" bytes> }")
    }
}

/// Start advertising as `name` and accepting credentials. `false` (and the
/// recorded error) when the board has no provisioning radio, or no board is
/// installed; the name is kept only when it succeeds.
pub fn begin<B: Board>(f: &mut Facade<B>, name: &str) -> (ok: bool)
    ensures
        ok == (final(f).last is None),
        old(f).board is None ==> !ok && final(f).last == Some(Error::NoBoard),
        ok ==> (final(f).provisioning matches Some(n) && n@ == name@),
        !ok ==> final(f).provisioning == old(f).provisioning,
        board_call(*old(f), Facade { provisioning: old(f).provisioning, ..*final(f) }),
        old(f).board matches Some(b0) ==> exists|m: &mut B, r: Result<(), Error>|
            mut_ref_current(m) == b0 && final(f).board == Some(mut_ref_future(m)) && #[trigger] call_ensures(
                B::provision_begin,
                (m, name),
                r,
            ) && ok == r is Ok && final(f).last == (match r {
                Ok(_) => None,
                Err(e) => Some(e),
            }),
{
    let r = match &mut f.board {
        Some(b) => b.provision_begin(name),
        None => Err(Error::NoBoard),
    };
    let ok = error::ok(f, r);
    if ok {
        f.provisioning = Some(String::from_str(name));
    }
    ok
}

/// Whether `begin` succeeded and no join has been reported since.
pub fn active<B>(f: &Facade<B>) -> (a: bool)
    ensures
        a == f.provisioning is Some,
{
    f.provisioning.is_some()
}

/// What a board's answer to `provision_poll` gives the sketch: the
/// credentials it reports, and nothing for "none yet" or a refusal.
pub open spec fn polled(r: Result<Option<(String, String)>, Error>) -> Option<Credentials> {
    match r {
        Ok(Some(p)) => Some(Credentials { ssid: p.0, psk: p.1 }),
        _ => None,
    }
}

/// The credentials a phone wrote since the last call, if any: what the
/// board's `provision_poll` answers. A refusal reads as "nothing yet" and is
/// recorded; an answer clears the record.
pub fn poll<B: Board>(f: &mut Facade<B>) -> (c: Option<Credentials>)
    ensures
        old(f).board is None ==> c is None && final(f).last == Some(Error::NoBoard),
        board_call(*old(f), *final(f)),
        old(f).board matches Some(b0) ==> exists|m: &mut B, r: Result<Option<(String, String)>, Error>|
            mut_ref_current(m) == b0 && final(f).board == Some(mut_ref_future(m)) && #[trigger] call_ensures(
                B::provision_poll,
                (m,),
                r,
            ) && c == polled(r) && final(f).last == (match r {
                Ok(_) => None,
                Err(e) => Some(e),
            }),
{
    let r = match &mut f.board {
        Some(b) => b.provision_poll(),
        None => Err(Error::NoBoard),
    };
    match error::some(f, r) {
        Some((ssid, psk)) => Some(Credentials { ssid, psk }),
        None => None,
    }
}

/// Tell the phone how the join went. A successful join ends provisioning.
pub fn report<B: Board>(f: &mut Facade<B>, joined: bool) -> (ok: bool)
    ensures
        ok == (final(f).last is None),
        old(f).board is None ==> !ok && final(f).last == Some(Error::NoBoard),
        ok && joined ==> final(f).provisioning is None,
        !(ok && joined) ==> final(f).provisioning == old(f).provisioning,
        board_call(*old(f), Facade { provisioning: old(f).provisioning, ..*final(f) }),
        old(f).board matches Some(b0) ==> exists|m: &mut B, r: Result<(), Error>|
            mut_ref_current(m) == b0 && final(f).board == Some(mut_ref_future(m)) && #[trigger] call_ensures(
                B::provision_report,
                (m, joined),
                r,
            ) && ok == r is Ok && final(f).last == (match r {
                Ok(_) => None,
                Err(e) => Some(e),
            }),
{
    let r = match &mut f.board {
        Some(b) => b.provision_report(joined),
        None => Err(Error::NoBoard),
    };
    let ok = error::ok(f, r);
    if ok && joined {
        f.provisioning = None;
    }
    ok
}

/// Keep `credentials` in the owner's settings, so the next boot joins
/// without a phone. `false` when the board has no settings store.
pub fn store<B: Board>(f: &mut Facade<B>, credentials: &Credentials) -> (ok: bool)
    ensures
        ok == (final(f).last is None),
        old(f).board is None ==> !ok && final(f).last == Some(Error::NoBoard),
        board_call(*old(f), *final(f)),
        old(f).board matches Some(b0) ==> exists|m: &mut B, ssid: &str, psk: &str, r: Result<(), Error>|
            mut_ref_current(m) == b0 && final(f).board == Some(mut_ref_future(m)) && ssid@ == credentials.ssid@
                && psk@ == credentials.psk@ && #[trigger] call_ensures(B::store_settings, (m, ssid, psk), r) && ok == r is Ok && final(f).last == (match r {
                Ok(_) => None,
                Err(e) => Some(e),
            }),
{
    let r = match &mut f.board {
        Some(b) => b.store_settings(credentials.ssid.as_str(), credentials.psk.as_str()),
        None => Err(Error::NoBoard),
    };
    error::ok(f, r)
}

} // verus!
