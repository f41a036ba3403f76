//! Why the last sketch call returned `false` or `None`.
//!
//! Arduino functions do not return errors; a maker checks a boolean or an
//! `Option`. The reason is still recorded, once, in the facade's state, and a
//! successful call clears it: [`last_error`] is one call away.

use vstd::prelude::*;

use crate::board::Facade;
use rusty_esp_core::error::Error as CoreError;
use crate::text::{debug_quoted, decimal, decimal_text, quoted};

verus! {

/// The Janus family error, as the function packages report it.
#[verifier::external_type_specification]
#[verifier::external_body]
pub struct ExCoreError(CoreError);

/// `Clone` of the family error, which derives `Copy`: the clone is the value.
pub assume_specification[ <CoreError as Clone>::clone ](e: &CoreError) -> (c: CoreError)
    ensures
        c == *e,
;

/// What went wrong.
#[derive(Debug, Clone, PartialEq, Eq)]
pub enum Error {
    /// No board has been installed; see `board::install`.
    NoBoard,
    /// `begin` has not been called on the named peripheral.
    NotBegun(&'static str),
    /// The board has no such thing (a radio mode, a store, a sensor).
    Missing(&'static str),
    /// A function package refused; the Janus error names why.
    Core(CoreError),
    /// The operating system refused (a socket, a file); the text is its own.
    Io(String),
}

/// The facade's result type; sketch functions fold it into `bool` / `Option`.
pub type Result<T> = core::result::Result<T, Error>;

impl Error {
    /// The error as a person reads it: the text a sketch prints.
    pub fn message(&self) -> (text: String)
        ensures
            match self {
                Error::NoBoard => text@ == "no board installed: call board::install first"@,
                Error::NotBegun(what) => text@ == what@ + ": begin was not called"@,
                Error::Missing(what) => text@ == "the board has no "@ + what@,
                Error::Core(e) => named(*e) ==> text@ == core_text(*e),
                Error::Io(s) => text@ == s@,
            },
    {
        match self {
            Error::NoBoard => String::from_str("no board installed: call board::install first"),
            Error::NotBegun(what) => String::from_str(what).concat(": begin was not called"),
            Error::Missing(what) => String::from_str("the board has no ").concat(what),
            Error::Core(e) => core_error_text(*e),
            Error::Io(s) => s.clone(),
        }
    }

    /// The error's `Debug` text: the variant, and its payload as `Debug`
    /// writes it.
    pub fn debug(&self) -> (text: String)
        ensures
            !(self matches Error::Core(e) && !named(*e)) ==> text@ == debug_of(*self),
    {
        match self {
            Error::NoBoard => String::from_str("NoBoard"),
            Error::NotBegun(what) => String::from_str("NotBegun(").concat(quoted(what).as_str()).concat(")"),
            Error::Missing(what) => String::from_str("Missing(").concat(quoted(what).as_str()).concat(")"),
            Error::Core(e) => String::from_str("Core(").concat(core_error_text(*e).as_str()).concat(")"),
            Error::Io(s) => String::from_str("Io(").concat(quoted(s.as_str()).as_str()).concat(")"),
        }
    }

    /// An equal copy of this error.
    pub fn duplicate(&self) -> (copy: Error)
        ensures
            copy == *self,
    {
        match self {
            Error::NoBoard => Error::NoBoard,
            Error::NotBegun(what) => Error::NotBegun(what),
            Error::Missing(what) => Error::Missing(what),
            Error::Core(e) => Error::Core(*e),
            Error::Io(s) => Error::Io(s.clone()),
        }
    }
}

impl From<CoreError> for Error {
    fn from(e: CoreError) -> (r: Error) {
        Error::Core(e)
    }
}

impl vstd::std_specs::convert::FromSpecImpl<CoreError> for Error {
    open spec fn obeys_from_spec() -> bool {
        true
    }

    open spec fn from_spec(e: CoreError) -> Error {
        Error::Core(e)
    }
}

/// The reason for the most recent `false` or `None`, if any; cleared by the
/// next successful call.
pub fn last_error<B>(f: &Facade<B>) -> (e: Option<Error>)
    ensures
        e == f.last,
{
    match &f.last {
        Some(e) => Some(e.duplicate()),
        None => None,
    }
}

/// Record `e` as the reason for the call that is failing now.
pub fn record<B>(f: &mut Facade<B>, e: Error)
    ensures
        *final(f) == (Facade { last: Some(e), ..*old(f) }),
{
    f.last = Some(e);
}

/// Forget the last reason: the call that is succeeding now.
pub fn clear<B>(f: &mut Facade<B>)
    ensures
        *final(f) == (Facade { last: None, ..*old(f) }),
{
    f.last = None;
}

/// Fold a result into a boolean, recording the error or clearing the record.
pub fn ok<B>(f: &mut Facade<B>, r: Result<()>) -> (done: bool)
    ensures
        done == r is Ok,
        *final(f) == (Facade {
            last: match r {
                Ok(_) => None,
                Err(e) => Some(e),
            },
            ..*old(f)
        }),
{
    match r {
        Ok(()) => {
            clear(f);
            true
        },
        Err(e) => {
            record(f, e);
            false
        },
    }
}

/// Fold a result into an option, recording the error or clearing the record.
pub fn some<B, T>(f: &mut Facade<B>, r: Result<Option<T>>) -> (v: Option<T>)
    ensures
        v == match r {
            Ok(v) => v,
            Err(_) => None,
        },
        *final(f) == (Facade {
            last: match r {
                Ok(_) => None,
                Err(e) => Some(e),
            },
            ..*old(f)
        }),
{
    match r {
        Ok(v) => {
            clear(f);
            v
        },
        Err(e) => {
            record(f, e);
            None
        },
    }
}

/// The family error's variants, as plain values the facade can read.
#[derive(Debug, Clone, Copy, PartialEq, Eq)]
pub enum Fault {
    /// The format, rate, geometry or feature is not supported here.
    Unsupported,
    /// A caller-supplied buffer is too small; `needed` would have succeeded.
    BufferTooSmall {
        /// Bytes required.
        needed: usize,
    },
    /// Width, height, stride, plane length or sample alignment disagree.
    InvalidGeometry,
    /// A value violates the contract of its encoding.
    InvalidFormat,
    /// The peripheral, transport or storage reported a fault.
    Hardware,
    /// The operation did not complete in time.
    Timeout,
    /// The resource is held by someone else right now.
    Busy,
    /// A signature, key or proof failed to verify.
    Crypto,
    /// The caller holds no capability that permits this.
    Denied,
    /// Stored data failed integrity checks.
    Corrupt,
}

/// The family error of each variant.
pub uninterp spec fn family_error(kind: Fault) -> CoreError;

/// The family error variant named by `kind`, with its field.
#[verifier::external_body]
pub(crate) fn family(kind: Fault) -> (e: CoreError)
    ensures
        e == family_error(kind),
{
    match kind {
        Fault::Unsupported => CoreError::Unsupported,
        Fault::BufferTooSmall { needed } => CoreError::BufferTooSmall { needed },
        Fault::InvalidGeometry => CoreError::InvalidGeometry,
        Fault::InvalidFormat => CoreError::InvalidFormat,
        Fault::Hardware => CoreError::Hardware,
        Fault::Timeout => CoreError::Timeout,
        Fault::Busy => CoreError::Busy,
        Fault::Crypto => CoreError::Crypto,
        Fault::Denied => CoreError::Denied,
        Fault::Corrupt => CoreError::Corrupt,
    }
}

/// Which variant the family error `e` is, with its field: distinct
/// variants (or fields) are distinct errors, so `e` names exactly one.
/// The family marks its error non-exhaustive; a variant a later version adds
/// is one this list does not name, and gives `None`.
#[verifier::external_body]
fn fault_of(e: CoreError) -> (kind: Option<Fault>)
    ensures
        match kind {
            Some(k) => family_error(k) == e && forall|j: Fault| family_error(j) == e ==> j == k,
            None => !named(e),
        },
{
    match e {
        CoreError::Unsupported => Some(Fault::Unsupported),
        CoreError::BufferTooSmall { needed } => Some(Fault::BufferTooSmall { needed }),
        CoreError::InvalidGeometry => Some(Fault::InvalidGeometry),
        CoreError::InvalidFormat => Some(Fault::InvalidFormat),
        CoreError::Hardware => Some(Fault::Hardware),
        CoreError::Timeout => Some(Fault::Timeout),
        CoreError::Busy => Some(Fault::Busy),
        CoreError::Crypto => Some(Fault::Crypto),
        CoreError::Denied => Some(Fault::Denied),
        CoreError::Corrupt => Some(Fault::Corrupt),
        _ => None,
    }
}

/// `format!("{e:?}")` of a family error; used only for a variant
/// [`Fault`] does not name, whose text is not stated here.
#[verifier::external_body]
fn unnamed_text(e: CoreError) -> String {
    format!("{e:?}")
}

/// Whether `e` is one of the variants [`Fault`] names.
pub open spec fn named(e: CoreError) -> bool {
    exists|k: Fault| family_error(k) == e
}

/// The `Debug` text of the family error `e`, as far as this facade states
/// it: the text of the variant it is.
fn core_error_text(e: CoreError) -> (text: String)
    ensures
        named(e) ==> text@ == core_text(e),
{
    match fault_of(e) {
        Some(k) => {
            proof {
                lemma_core_text(e, k);
            }
            fault_text(k)
        },
        None => unnamed_text(e),
    }
}

/// The `Debug` text of a family error variant: its name, and its field as
/// `name: value` in braces.
pub open spec fn fault_debug(k: Fault) -> Seq<char> {
    match k {
        Fault::Unsupported => "Unsupported"@,
        Fault::BufferTooSmall { needed } => "BufferTooSmall { needed: "@ + decimal(needed as nat) + " }"@,
        Fault::InvalidGeometry => "InvalidGeometry"@,
        Fault::InvalidFormat => "InvalidFormat"@,
        Fault::Hardware => "Hardware"@,
        Fault::Timeout => "Timeout"@,
        Fault::Busy => "Busy"@,
        Fault::Crypto => "Crypto"@,
        Fault::Denied => "Denied"@,
        Fault::Corrupt => "Corrupt"@,
    }
}

/// The `Debug` text of the family error `e`.
pub open spec fn core_text(e: CoreError) -> Seq<char> {
    fault_debug(choose|k: Fault| family_error(k) == e)
}

/// The one variant `e` is gives its text.
proof fn lemma_core_text(e: CoreError, k: Fault)
    requires
        family_error(k) == e,
        forall|j: Fault| family_error(j) == e ==> j == k,
    ensures
        core_text(e) == fault_debug(k),
{
}

/// The `Debug` text of one of the facade's errors.
pub open spec fn debug_of(e: Error) -> Seq<char> {
    match e {
        Error::NoBoard => "NoBoard"@,
        Error::NotBegun(what) => "NotBegun("@ + debug_quoted(what@) + ")"@,
        Error::Missing(what) => "Missing("@ + debug_quoted(what@) + ")"@,
        Error::Core(c) => "Core("@ + core_text(c) + ")"@,
        Error::Io(s) => "Io("@ + debug_quoted(s@) + ")"@,
    }
}

/// The `Debug` text of `kind`.
pub fn fault_text(kind: Fault) -> (text: String)
    ensures
        text@ == fault_debug(kind),
{
    let text = match kind {
        Fault::Unsupported => String::from_str("Unsupported"),
        Fault::BufferTooSmall { needed } => String::from_str("BufferTooSmall { needed: ").concat(
            decimal_text(needed).as_str(),
        ).concat(" }"),
        Fault::InvalidGeometry => String::from_str("InvalidGeometry"),
        Fault::InvalidFormat => String::from_str("InvalidFormat"),
        Fault::Hardware => String::from_str("Hardware"),
        Fault::Timeout => String::from_str("Timeout"),
        Fault::Busy => String::from_str("Busy"),
        Fault::Crypto => String::from_str("Crypto"),
        Fault::Denied => String::from_str("Denied"),
        Fault::Corrupt => String::from_str("Corrupt"),
    };
    text
}

} // verus!
