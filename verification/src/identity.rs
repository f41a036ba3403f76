//! The device's own `did:mata`: minted once from the board's entropy, kept
//! in the board's store, the same on every boot. Minting is the identity
//! package's and the store is the board's; what the facade decides — which
//! makers it accepts, what it remembers, and that the store is handed to
//! the mesh once — is here.

use vstd::prelude::*;

use crate::board::Facade;
use crate::error::{self, Error};
use crate::text::{debug_quoted, quoted};

verus! {

/// The label the device key is generated under.
pub const DEVICE_ID: &'static str = "janus";

/// What `begin` established.
pub struct State {
    /// The device's DID.
    pub did: String,
    /// The DID allowed to sign this device's updates, if any.
    pub maker: Option<String>,
    /// Whether the store and entropy `begin` took from the board are still
    /// held for the mesh (handed over once).
    pub store: bool,
}

/// Whether the identity package parses `did` as a `did:mata`.
pub uninterp spec fn parses_as_mata_did(did: Seq<char>) -> bool;

/// `Did::parse` of the identity package: whether `did` is a `did:mata`
/// (the prefix, then a base58 public key of the right length).
#[verifier::external_body]
fn is_mata_did(did: &str) -> (ok: bool)
    ensures
        ok == parses_as_mata_did(did@),
{
    rusty_esp_mid_core::did::Did::parse(did).is_ok()
}

/// Whether `maker` is acceptable: absent, or a `did:mata`.
pub open spec fn maker_ok(maker: Option<&str>) -> bool {
    match maker {
        None => true,
        Some(m) => parses_as_mata_did(m@),
    }
}

/// Accept `maker` if it is a `did:mata` (or absent); otherwise the refusal
/// names it.
pub fn check_maker(maker: Option<&str>) -> (r: Result<(), Error>)
    ensures
        match maker {
            None => r is Ok,
            Some(m) => (r is Ok <==> parses_as_mata_did(m@)) && (r matches Err(Error::Io(t))
                ==> t@ == "maker "@ + debug_quoted(m@) + " is not a did:mata"@),
        },
        r matches Err(e) ==> e is Io,
        r is Ok <==> maker_ok(maker),
{
    match maker {
        None => Ok(()),
        Some(m) => {
            if is_mata_did(m) {
                Ok(())
            } else {
                let t = String::from_str("maker ").concat(quoted(m).as_str()).concat(
                    " is not a did:mata",
                );
                Err(Error::Io(t))
            }
        },
    }
}

/// What loading the device key from the board's store gave.
pub enum Minted {
    /// The board offers no store for the device key.
    NoStore,
    /// The board offers a store but no entropy source.
    NoEntropy,
    /// The identity package loaded (or generated) the key in the store: the
    /// DID it gives, or why there is none.
    Key(Result<String, Error>),
}

/// What the board's refusal to give a key becomes, once the maker was
/// accepted and a board is installed.
pub fn minting_refusal(minted: &Minted) -> (e: Option<Error>)
    ensures
        match minted {
            Minted::NoStore => e == Some(Error::Missing("store for the device key")),
            Minted::NoEntropy => e == Some(Error::Missing("entropy source")),
            Minted::Key(Err(k)) => e == Some(*k),
            Minted::Key(Ok(_)) => e is None,
        },
{
    match minted {
        Minted::NoStore => Some(Error::Missing("store for the device key")),
        Minted::NoEntropy => Some(Error::Missing("entropy source")),
        Minted::Key(Err(k)) => Some(k.duplicate()),
        Minted::Key(Ok(_)) => None,
    }
}

/// Settle `identity::begin`. `minted` is what loading the device key from
/// the board's store gave. The checks come in order: a maker that is not a
/// `did:mata` is refused first, then a facade with no board, then what
/// minting found; a success clears the last error.
pub fn begin<B>(f: &mut Facade<B>, maker: Option<&str>, minted: Minted) -> (ok: bool)
    ensures
        ok == (maker_ok(maker) && old(f).board is Some && minted matches Minted::Key(Ok(_))),
        ok ==> (final(f).identity matches Some(s) && s.did == minted->Key_0->Ok_0 && s.store
            && (match maker {
                Some(m) => (s.maker matches Some(k) && k@ == m@),
                None => s.maker is None,
            })),
        ok ==> *final(f) == (Facade { identity: final(f).identity, last: None, ..*old(f) }),
        !ok ==> *final(f) == (Facade { last: final(f).last, ..*old(f) }) && final(f).last is Some,
        !maker_ok(maker) ==> (final(f).last matches Some(Error::Io(t)) && t@ == "maker "@ + debug_quoted(
            maker->Some_0@,
        ) + " is not a did:mata"@),
        maker_ok(maker) && old(f).board is None ==> final(f).last == Some(Error::NoBoard),
        maker_ok(maker) && old(f).board is Some ==> (match minted {
            Minted::NoStore => final(f).last == Some(Error::Missing("store for the device key")),
            Minted::NoEntropy => final(f).last == Some(Error::Missing("entropy source")),
            Minted::Key(Err(e)) => final(f).last == Some(e),
            Minted::Key(Ok(_)) => final(f).last is None,
        }),
{
    if let Err(e) = check_maker(maker) {
        error::record(f, e);
        return false;
    }
    if f.board.is_none() {
        error::record(f, Error::NoBoard);
        return false;
    }
    if let Some(e) = minting_refusal(&minted) {
        error::record(f, e);
        return false;
    }
    match minted {
        Minted::Key(Ok(did)) => {
            let maker = match maker {
                Some(m) => Some(String::from_str(m)),
                None => None,
            };
            f.identity = Some(State { did, maker, store: true });
            error::clear(f);
            true
        },
        _ => false,
    }
}

/// The device's DID once `begin` succeeded.
pub fn did<B>(f: &Facade<B>) -> (d: Option<String>)
    ensures
        match f.identity {
            Some(s) => d == Some(s.did),
            None => d is None,
        },
{
    match &f.identity {
        Some(s) => Some(s.did.clone()),
        None => None,
    }
}

/// The maker DID `begin` was given, if any.
pub fn maker<B>(f: &Facade<B>) -> (m: Option<String>)
    ensures
        match f.identity {
            Some(s) => m == s.maker,
            None => m is None,
        },
{
    match &f.identity {
        Some(s) => match &s.maker {
            Some(m) => Some(m.clone()),
            None => None,
        },
        None => None,
    }
}

/// Whether `begin` succeeded.
pub fn begun<B>(f: &Facade<B>) -> (b: bool)
    ensures
        b == f.identity is Some,
{
    did(f).is_some()
}

/// Whether the identity still holds the store for the mesh.
pub open spec fn holds_store(i: Option<State>) -> bool {
    i matches Some(s) && s.store
}

/// The identity once its store was handed over.
pub open spec fn store_handed_over(i: Option<State>) -> Option<State> {
    match i {
        Some(s) => Some(State { store: false, ..s }),
        None => None,
    }
}

/// Hand over the store and entropy `begin` took, once: `true` the first
/// time after a successful `begin`, `false` after that and before it.
pub fn take_store<B>(f: &mut Facade<B>) -> (taken: bool)
    ensures
        taken == holds_store(old(f).identity),
        final(f).identity == store_handed_over(old(f).identity),
        *final(f) == (Facade { identity: final(f).identity, ..*old(f) }),
{
    match &mut f.identity {
        Some(s) => {
            let taken = s.store;
            s.store = false;
            taken
        },
        None => false,
    }
}

/// Forget the identity (tests; a sketch that ends). The store keeps the
/// key, so the next `begin` on the same store yields the same DID.
pub fn end<B>(f: &mut Facade<B>)
    ensures
        *final(f) == (Facade { identity: None, ..*old(f) }),
{
    f.identity = None;
}

} // verus!
