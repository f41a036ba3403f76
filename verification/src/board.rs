//! The seam: one trait a board implements, and the facade's state that holds
//! the installed board.
//!
//! A board owns the peripherals the sketch functions reach — the camera, the
//! microphone, the network interface — and nothing else. The stream side is
//! not the board's: it is the same code on every board, which is why
//! `stream` is a module and not a trait method.

use vstd::prelude::*;

use crate::error::{Error, Result};
use crate::units::{Micros, PcmFormat, frame_bytes};
use crate::{cam, identity, mesh, mic, radar, stream};

verus! {

/// One JPEG frame from the camera.
#[derive(Debug, Clone, PartialEq, Eq)]
pub struct Jpeg {
    /// The whole JFIF file, SOI to EOI.
    pub bytes: Vec<u8>,
    /// Pixels across.
    pub width: u16,
    /// Pixels down.
    pub height: u16,
    /// When it was captured, in the board's clock.
    pub timestamp: Micros,
}

/// One block of PCM from the microphone.
#[derive(Debug, Clone, PartialEq, Eq)]
pub struct Pcm {
    /// Rate, channels and sample format of `bytes`.
    pub format: PcmFormat,
    /// Interleaved little-endian samples.
    pub bytes: Vec<u8>,
    /// When the first sample was captured, in the board's clock.
    pub timestamp: Micros,
}

impl Pcm {
    /// Sample frames in the block: whole frames only, and 0 for a format
    /// with no channels.
    pub fn frames(&self) -> (n: usize)
        ensures
            frame_bytes(self.format) == 0 ==> n == 0,
            frame_bytes(self.format) != 0 ==> n == self.bytes@.len() / frame_bytes(self.format),
    {
        let frame = self.format.sample.bytes() * (self.format.channels as usize);
        if frame == 0 {
            0
        } else {
            self.bytes.len() / frame
        }
    }
}

/// Why a boot happened, as the board's reset logic names it.
#[derive(Debug, Clone, Copy, PartialEq, Eq)]
pub enum ResetReason {
    /// Power applied.
    PowerOn,
    /// The reset pin, or a USB reset.
    External,
    /// A software restart the sketch asked for.
    Software,
    /// The panic handler.
    Panic,
    /// The task watchdog: a loop pass that never came back.
    TaskWatchdog,
    /// The interrupt watchdog, or another hardware watchdog.
    InterruptWatchdog,
    /// The supply sagged.
    Brownout,
    /// A wake from deep sleep.
    DeepSleep,
    /// Something this list does not name.
    Other,
}

/// The word a boot record carries for each reason.
pub open spec fn reset_tag(r: ResetReason) -> Seq<char> {
    match r {
        ResetReason::PowerOn => "power-on"@,
        ResetReason::External => "external"@,
        ResetReason::Software => "software"@,
        ResetReason::Panic => "panic"@,
        ResetReason::TaskWatchdog => "task-watchdog"@,
        ResetReason::InterruptWatchdog => "interrupt-watchdog"@,
        ResetReason::Brownout => "brownout"@,
        ResetReason::DeepSleep => "deep-sleep"@,
        ResetReason::Other => "other"@,
    }
}

/// A boot that followed a failure rather than a request.
pub open spec fn crashed(r: ResetReason) -> bool {
    r is Panic || r is TaskWatchdog || r is InterruptWatchdog || r is Brownout
}

impl ResetReason {
    /// The word a record carries.
    pub fn wire_tag(self) -> (tag: &'static str)
        ensures
            tag@ == reset_tag(self),
    {
        match self {
            ResetReason::PowerOn => "power-on",
            ResetReason::External => "external",
            ResetReason::Software => "software",
            ResetReason::Panic => "panic",
            ResetReason::TaskWatchdog => "task-watchdog",
            ResetReason::InterruptWatchdog => "interrupt-watchdog",
            ResetReason::Brownout => "brownout",
            ResetReason::DeepSleep => "deep-sleep",
            ResetReason::Other => "other",
        }
    }

    /// Whether this boot followed a failure rather than a request.
    pub fn is_crash(self) -> (c: bool)
        ensures
            c == crashed(self),
    {
        match self {
            ResetReason::Panic => true,
            ResetReason::TaskWatchdog => true,
            ResetReason::InterruptWatchdog => true,
            ResetReason::Brownout => true,
            _ => false,
        }
    }
}

/// What a board knows about this boot and the ones before it.
#[derive(Debug, Clone, Copy, PartialEq, Eq)]
pub struct BootRecord {
    /// Why this boot happened.
    pub reason: ResetReason,
    /// Boots counted by the board, this one included.
    pub boots: u32,
    /// Boots that followed a failure, this one included if it did.
    pub crashes: u32,
}

/// A network address, as a board reports the one it answers on.
#[derive(Debug, Clone, Copy, PartialEq, Eq)]
pub enum IpAddress {
    /// An IPv4 address, most significant octet first.
    V4([u8; 4]),
    /// An IPv6 address, most significant octet first.
    V6([u8; 16]),
}

/// What a board provides. Every method may be called before the matching
/// `begin`; a board answers `Err(Error::NotBegun(..))` then. The provided
/// methods are what a board without the feature answers.
pub trait Board {
    /// Join the network `ssid` with `psk`; return when joined or refused.
    fn wifi_begin(&mut self, ssid: &str, psk: &str) -> Result<()>;

    /// The interface address, once joined or once hosting.
    fn local_ip(&self) -> Option<IpAddress>;

    /// Configure and start the camera.
    fn cam_begin(&mut self, config: &cam::Config) -> Result<()>;

    /// The next frame, or `None` when no frame is ready yet.
    fn cam_grab(&mut self) -> Result<Option<Jpeg>>;

    /// Configure and start the microphone.
    fn mic_begin(&mut self, config: &mic::Config) -> Result<()>;

    /// The next block, or `None` when no block is ready yet.
    fn mic_read(&mut self) -> Result<Option<Pcm>>;

    /// Milliseconds since the board started.
    fn millis(&self) -> u64;

    /// Host an access point called `ssid` with `psk`, instead of joining
    /// one. Refusing by default, so a board that has no radio says so rather
    /// than appearing to succeed. `psk` must be 8 to 63 bytes.
    fn wifi_host(&mut self, ssid: &str, psk: &str) -> (r: Result<()>)
        default_ensures
            r == Err::<(), Error>(Error::Missing("access-point mode")),
    {
        Err(Error::Missing("access-point mode"))
    }

    /// Publish this device on the local network. A board with no mDNS
    /// answers `Ok` and is reachable by ticket alone.
    fn advertise(
        &mut self,
        hostname: &str,
        instance: &str,
        service_type: &str,
        port: u16,
        txt: &[(String, String)],
    ) -> (r: Result<()>)
        default_ensures
            r is Ok,
    {
        Ok(())
    }

    /// Replace the TXT record of the service [`Board::advertise`] published.
    /// A board that never advertised has nothing to update and answers `Ok`.
    fn advertise_txt(&mut self, service_type: &str, txt: &[(String, String)]) -> (r: Result<()>)
        default_ensures
            r is Ok,
    {
        Ok(())
    }

    /// The running image is good: cancel a pending bootloader rollback.
    fn ota_running_valid(&mut self) -> (r: Result<()>)
        default_ensures
            r is Ok,
    {
        Ok(())
    }

    /// Put the sketch's thread on a liveness watchdog of about `timeout_s`
    /// seconds. A board without one answers `Ok` and the loop runs unwatched.
    fn liveness_begin(&mut self, timeout_s: u32) -> (r: Result<()>)
        default_ensures
            r is Ok,
    {
        Ok(())
    }

    /// One pass of the loop completed.
    fn liveness_feed(&mut self) -> (r: Result<()>)
        default_ensures
            r is Ok,
    {
        Ok(())
    }

    /// Why this boot happened and how many boots and crashes the board has
    /// counted; `None` on a board that keeps no such record.
    fn boot_record(&mut self) -> (r: Result<Option<BootRecord>>)
        default_ensures
            r == Ok::<Option<BootRecord>, Error>(None),
    {
        Ok(None)
    }

    /// Prepare the platform for an async runtime that may hold `max_fds`
    /// descriptors at once. A board with nothing to prepare answers `Ok`.
    fn prepare_async(&mut self, max_fds: usize) -> (r: Result<()>)
        default_ensures
            r is Ok,
    {
        Ok(())
    }

    /// Start advertising the provisioning service as `name`; a phone writes
    /// the network to join. A board without a radio for it refuses by name.
    fn provision_begin(&mut self, name: &str) -> (r: Result<()>)
        default_ensures
            r == Err::<(), Error>(Error::Missing("BLE provisioning on this board")),
    {
        Err(Error::Missing("BLE provisioning on this board"))
    }

    /// The `(ssid, psk)` a phone wrote since the last call, if any.
    fn provision_poll(&mut self) -> (r: Result<Option<(String, String)>>)
        default_ensures
            r == Ok::<Option<(String, String)>, Error>(None),
    {
        Ok(None)
    }

    /// Tell the phone how the join went; a board without provisioning
    /// ignores it.
    fn provision_report(&mut self, joined: bool) -> (r: Result<()>)
        default_ensures
            r is Ok,
    {
        Ok(())
    }

    /// Keep the network in the owner's settings so the next boot joins
    /// without a phone.
    fn store_settings(&mut self, ssid: &str, psk: &str) -> (r: Result<()>)
        default_ensures
            r == Err::<(), Error>(Error::Missing("a settings store on this board")),
    {
        Err(Error::Missing("a settings store on this board"))
    }

    /// Restart the board. A board that cannot restart itself refuses by
    /// name and the sketch carries on.
    fn restart(&mut self) -> (r: Result<()>)
        default_ensures
            r == Err::<(), Error>(Error::Missing("a way to restart this board")),
    {
        Err(Error::Missing("a way to restart this board"))
    }

    /// Start the presence sensor. A board without one refuses by name.
    fn radar_begin(&mut self, config: &radar::Config) -> (r: Result<()>)
        default_ensures
            r == Err::<(), Error>(Error::Missing("a presence sensor on this board")),
    {
        Err(Error::Missing("a presence sensor on this board"))
    }

    /// The newest reading since the last call, or `None` when none is ready.
    fn radar_read(&mut self) -> (r: Result<Option<radar::Presence>>)
        default_ensures
            r == Ok::<Option<radar::Presence>, Error>(None),
    {
        Ok(None)
    }
}

/// The facade's state: the installed board and what the sketch verbs
/// remember between calls.
pub struct Facade<B> {
    /// The board the sketch runs on, once installed.
    pub board: Option<B>,
    /// The reason for the most recent `false` or `None`.
    pub last: Option<Error>,
    /// What the camera was begun with, once `cam::begin` succeeded.
    pub cam_config: Option<cam::Config>,
    /// What the microphone was begun with, once `mic::begin` succeeded.
    pub mic_config: Option<mic::Config>,
    /// What the presence sensor was begun with, once `radar::begin` succeeded.
    pub radar_config: Option<radar::Config>,
    /// The name provisioning advertises under, while it is active.
    pub provisioning: Option<String>,
    /// This boot's record, once `sketch` has read it from the board.
    pub boot: Option<BootRecord>,
    /// The device's identity, once `identity::begin` succeeded.
    pub identity: Option<identity::State>,
    /// The mesh node's state, once `mesh::begin` succeeded.
    pub mesh: Option<mesh::State>,
    /// What the stream outputs are and have done.
    pub stream: stream::State,
}

/// `b` is `a` after a call into the board: the board may have changed its
/// own state and the last error may have changed; nothing else did.
pub open spec fn board_call<B>(a: Facade<B>, b: Facade<B>) -> bool {
    &&& (b.board is Some <==> a.board is Some)
    &&& b == (Facade { board: b.board, last: b.last, ..a })
}

impl<B> Facade<B> {
    /// A facade with no board installed and nothing begun.
    pub fn new() -> (f: Facade<B>)
        ensures
            f.board is None,
            f.last is None,
            f.cam_config is None,
            f.mic_config is None,
            f.radar_config is None,
            f.provisioning is None,
            f.boot is None,
            f.identity is None,
            f.mesh is None,
            f.stream == stream::State::idle(),
    {
        Facade {
            board: None,
            last: None,
            cam_config: None,
            mic_config: None,
            radar_config: None,
            provisioning: None,
            boot: None,
            identity: None,
            mesh: None,
            stream: stream::State::new(),
        }
    }
}

/// Install the board the sketch runs on. Installing again replaces the
/// previous board; nothing else the facade remembers changes.
pub fn install<B>(f: &mut Facade<B>, board: B)
    ensures
        *final(f) == (Facade { board: Some(board), ..*old(f) }),
{
    f.board = Some(board);
}

/// Remove the installed board (tests, and a sketch that ends).
pub fn uninstall<B>(f: &mut Facade<B>)
    ensures
        *final(f) == (Facade { board: None, ..*old(f) }),
{
    f.board = None;
}

/// Whether a board is installed.
pub fn installed<B>(f: &Facade<B>) -> (b: bool)
    ensures
        b == f.board is Some,
{
    f.board.is_some()
}

/// Milliseconds since the board started (0 without a board).
pub fn millis<B: Board>(f: &Facade<B>) -> (ms: u64)
    ensures
        f.board is None ==> ms == 0,
        f.board matches Some(b) ==> call_ensures(B::millis, (&b,), ms),
{
    match &f.board {
        Some(b) => b.millis(),
        None => 0,
    }
}

} // verus!
