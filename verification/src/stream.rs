//! Where frames and blocks go: an MJPEG page any browser opens, RTP/JPEG to
//! a player, raw PCM over UDP to a receiver. The sockets are the video
//! package's; which outputs exist, what a push does when there is none, what
//! the counters say, and what an open `/stream` is handed next are here.

use vstd::prelude::*;
use vstd::slice::slice_to_vec;

use crate::board::{Facade, Jpeg, Pcm};
use crate::error::{self, Error};
use crate::units::Micros;

verus! {

/// RTP/JPEG and PCM datagrams are cut to fit this many bytes.
pub const MTU: usize = 1400;

/// The largest JPEG a stream will carry.
pub const MAX_JPEG: usize = 524288;

/// The RTP SSRC the sender uses; one sender per program ("JANU").
pub const SSRC: u32 = 0x4A41_4E55;

/// How long an open `/stream` waits for a newer frame before it gives up,
/// in milliseconds, so that a viewer with no frames coming does not hold
/// the server.
pub const STREAM_STALL_MS: u64 = 10_000;

/// What the HTTP server has served.
#[derive(Debug, Clone, Copy, PartialEq, Eq)]
pub struct HttpStats {
    /// Connections accepted.
    pub connections: u64,
    /// `/stream` requests served to the end.
    pub streams: u64,
    /// Frames pushed across all streams.
    pub frames: u64,
    /// Other requests answered (index, 404, 405).
    pub other: u64,
}

impl Default for HttpStats {
    fn default() -> (s: Self)
        ensures
            s == (HttpStats { connections: 0, streams: 0, frames: 0, other: 0 }),
    {
        HttpStats { connections: 0, streams: 0, frames: 0, other: 0 }
    }
}

/// What a UDP sender has done.
#[derive(Debug, Clone, Copy, PartialEq, Eq)]
pub struct TxStats {
    /// Frames (or packets, for the raw sender) handed in.
    pub frames: u64,
    /// Datagrams sent.
    pub packets: u64,
    /// Bytes on the wire, headers included.
    pub bytes: u64,
    /// Frames dropped whole by the byte budget.
    pub dropped: u64,
}

impl Default for TxStats {
    fn default() -> (s: Self)
        ensures
            s == (TxStats { frames: 0, packets: 0, bytes: 0, dropped: 0 }),
    {
        TxStats { frames: 0, packets: 0, bytes: 0, dropped: 0 }
    }
}

/// What the stream module has done so far.
#[derive(Debug, Clone, Copy, PartialEq, Eq)]
pub struct Stats {
    /// `push_jpeg` calls that succeeded.
    pub jpeg_pushed: u64,
    /// `push_pcm` calls that succeeded.
    pub pcm_pushed: u64,
    /// The RTP/JPEG sender's totals (zeros when none).
    pub rtp: TxStats,
    /// The PCM sender's totals (zeros when none).
    pub pcm: TxStats,
    /// The HTTP server's totals (zeros when none).
    pub http: HttpStats,
}

impl Default for Stats {
    fn default() -> (s: Self)
        ensures
            s == (Stats {
                jpeg_pushed: 0,
                pcm_pushed: 0,
                rtp: TxStats { frames: 0, packets: 0, bytes: 0, dropped: 0 },
                pcm: TxStats { frames: 0, packets: 0, bytes: 0, dropped: 0 },
                http: HttpStats { connections: 0, streams: 0, frames: 0, other: 0 },
            }),
    {
        Stats {
            jpeg_pushed: 0,
            pcm_pushed: 0,
            rtp: TxStats::default(),
            pcm: TxStats::default(),
            http: HttpStats::default(),
        }
    }
}

/// Which outputs exist and what the pushes did.
#[derive(Debug, Clone, Copy, PartialEq, Eq)]
pub struct State {
    /// Whether `listen` has bound a server.
    pub server: bool,
    /// Whether an RTP/JPEG sender exists.
    pub rtp: bool,
    /// Whether a PCM sender exists.
    pub pcm: bool,
    /// `push_jpeg` calls that succeeded.
    pub jpeg_pushed: u64,
    /// `push_pcm` calls that succeeded.
    pub pcm_pushed: u64,
}

impl State {
    /// Nothing configured, nothing pushed.
    pub open spec fn idle() -> State {
        State { server: false, rtp: false, pcm: false, jpeg_pushed: 0, pcm_pushed: 0 }
    }

    /// Nothing configured, nothing pushed: a sketch that never calls
    /// `listen` opens no socket.
    pub fn new() -> (s: State)
        ensures
            s == State::idle(),
    {
        State { server: false, rtp: false, pcm: false, jpeg_pushed: 0, pcm_pushed: 0 }
    }
}

/// Settle `listen(port)`: `bound` is whether the server could bind its port
/// and start serving. One server per program: a later `listen` leaves the
/// first running.
pub fn listen<B>(f: &mut Facade<B>, bound: Result<(), Error>) -> (ok: bool)
    ensures
        ok == bound is Ok,
        *final(f) == (Facade {
            last: match bound {
                Ok(_) => None,
                Err(e) => Some(e),
            },
            stream: State { server: old(f).stream.server || ok, ..old(f).stream },
            ..*old(f)
        }),
{
    if bound.is_ok() {
        f.stream.server = true;
    }
    error::ok(f, bound)
}

/// Settle `rtp_to(dest)`: `made` is whether the RTP/JPEG socket could be
/// made. A sender replaces the previous one.
pub fn rtp_to<B>(f: &mut Facade<B>, made: Result<(), Error>) -> (ok: bool)
    ensures
        ok == made is Ok,
        *final(f) == (Facade {
            last: match made {
                Ok(_) => None,
                Err(e) => Some(e),
            },
            stream: State { rtp: old(f).stream.rtp || ok, ..old(f).stream },
            ..*old(f)
        }),
{
    if made.is_ok() {
        f.stream.rtp = true;
    }
    error::ok(f, made)
}

/// Settle `pcm_to(dest)`: `made` is whether the PCM socket could be made.
pub fn pcm_to<B>(f: &mut Facade<B>, made: Result<(), Error>) -> (ok: bool)
    ensures
        ok == made is Ok,
        *final(f) == (Facade {
            last: match made {
                Ok(_) => None,
                Err(e) => Some(e),
            },
            stream: State { pcm: old(f).stream.pcm || ok, ..old(f).stream },
            ..*old(f)
        }),
{
    if made.is_ok() {
        f.stream.pcm = true;
    }
    error::ok(f, made)
}

/// Settle `push_jpeg(frame)`: the frame went to every open `/stream` (when
/// a server exists) and, when an RTP sender exists, `rtp_sent` is what
/// sending it did. `true` when at least one destination exists and took it:
/// the server always does, the RTP sender when its send succeeded. With
/// none, the refusal names `stream`; with only a failed RTP send, it is
/// that send's error.
pub fn push_jpeg<B>(f: &mut Facade<B>, rtp_sent: Result<(), Error>) -> (ok: bool)
    requires
        old(f).stream.server || (old(f).stream.rtp && rtp_sent is Ok) ==> old(f).stream.jpeg_pushed < u64::MAX,
    ensures
        ok == (old(f).stream.server || (old(f).stream.rtp && rtp_sent is Ok)),
        ok ==> *final(f) == (Facade {
            last: None,
            stream: State { jpeg_pushed: (old(f).stream.jpeg_pushed + 1) as u64, ..old(f).stream },
            ..*old(f)
        }),
        !ok ==> *final(f) == (Facade { last: final(f).last, ..*old(f) }),
        !old(f).stream.server && !old(f).stream.rtp ==> final(f).last == Some(Error::NotBegun("stream")),
        !old(f).stream.server && old(f).stream.rtp && rtp_sent is Err ==> final(f).last == Some(rtp_sent->Err_0),
{
    if !f.stream.server && !f.stream.rtp {
        error::record(f, Error::NotBegun("stream"));
        return false;
    }
    if f.stream.server || rtp_sent.is_ok() {
        f.stream.jpeg_pushed = f.stream.jpeg_pushed + 1;
        error::clear(f);
        return true;
    }
    if let Err(e) = rtp_sent {
        error::record(f, e);
    }
    false
}

/// Settle `push_pcm(block)`: when a PCM sender exists, `sent` is what
/// sending the block did. Without a sender the refusal names
/// `stream::pcm_to`.
pub fn push_pcm<B>(f: &mut Facade<B>, sent: Result<(), Error>) -> (ok: bool)
    requires
        old(f).stream.pcm && sent is Ok ==> old(f).stream.pcm_pushed < u64::MAX,
    ensures
        ok == (old(f).stream.pcm && sent is Ok),
        ok ==> *final(f) == (Facade {
            last: None,
            stream: State { pcm_pushed: (old(f).stream.pcm_pushed + 1) as u64, ..old(f).stream },
            ..*old(f)
        }),
        !ok ==> *final(f) == (Facade { last: final(f).last, ..*old(f) }),
        !old(f).stream.pcm ==> final(f).last == Some(Error::NotBegun("stream::pcm_to")),
        old(f).stream.pcm && sent is Err ==> final(f).last == Some(sent->Err_0),
{
    if !f.stream.pcm {
        error::record(f, Error::NotBegun("stream::pcm_to"));
        return false;
    }
    match sent {
        Err(e) => {
            error::record(f, e);
            false
        },
        Ok(()) => {
            f.stream.pcm_pushed = f.stream.pcm_pushed + 1;
            error::clear(f);
            true
        },
    }
}

/// Totals so far: the push counters, and each output's totals where the
/// output exists (zeros where it does not).
pub fn stats<B>(f: &Facade<B>, rtp: TxStats, pcm: TxStats, http: HttpStats) -> (s: Stats)
    ensures
        s.jpeg_pushed == f.stream.jpeg_pushed,
        s.pcm_pushed == f.stream.pcm_pushed,
        s.rtp == (if f.stream.rtp { rtp } else { TxStats { frames: 0, packets: 0, bytes: 0, dropped: 0 } }),
        s.pcm == (if f.stream.pcm { pcm } else { TxStats { frames: 0, packets: 0, bytes: 0, dropped: 0 } }),
        s.http == (if f.stream.server { http } else { HttpStats { connections: 0, streams: 0, frames: 0, other: 0 } }),
{
    Stats {
        jpeg_pushed: f.stream.jpeg_pushed,
        pcm_pushed: f.stream.pcm_pushed,
        rtp: if f.stream.rtp { rtp } else { TxStats::default() },
        pcm: if f.stream.pcm { pcm } else { TxStats::default() },
        http: if f.stream.server { http } else { HttpStats::default() },
    }
}

/// Drop the RTP and PCM senders (the HTTP server, once started, stays).
pub fn stop_senders<B>(f: &mut Facade<B>)
    ensures
        *final(f) == (Facade { stream: State { rtp: false, pcm: false, ..old(f).stream }, ..*old(f) }),
{
    f.stream.rtp = false;
    f.stream.pcm = false;
}

/// The latest frame, shared between `push_jpeg` and every open `/stream`,
/// and how many have been published.
pub struct Slot {
    /// Frames published so far (wrapping).
    pub published: u64,
    /// The newest frame.
    pub frame: Option<Jpeg>,
}

/// What an open `/stream` is handed next.
pub enum Next {
    /// Nothing newer than what it sent; wait for a publish.
    Wait,
    /// Nothing newer arrived within [`STREAM_STALL_MS`]: end the stream.
    Stalled,
    /// The newest frame does not fit the scratch buffer.
    TooSmall {
        /// Bytes the frame needs.
        needed: usize,
    },
    /// The newest frame is in the first `len` bytes of the scratch buffer.
    Frame {
        /// Its publish count, to remember as seen.
        seen: u64,
        /// Its length.
        len: usize,
        /// When it was captured.
        timestamp: Micros,
    },
}

impl Slot {
    /// An empty slot: nothing published.
    pub fn new() -> (s: Slot)
        ensures
            s.published == 0,
            s.frame is None,
    {
        Slot { published: 0, frame: None }
    }

    /// Make `frame` the newest, for every stream waiting on this slot.
    pub fn publish(&mut self, frame: &Jpeg)
        ensures
            final(self).published == (if old(self).published == u64::MAX { 0 } else { (old(self).published
                + 1) as u64 }),
            final(self).frame matches Some(j) && (j.bytes@ == frame.bytes@ && j.width == frame.width
                && j.height == frame.height && j.timestamp == frame.timestamp),
    {
        self.published = if self.published == u64::MAX { 0 } else { self.published + 1 };
        self.frame = Some(
            Jpeg {
                bytes: slice_to_vec(frame.bytes.as_slice()),
                width: frame.width,
                height: frame.height,
                timestamp: frame.timestamp,
            },
        );
    }

    /// For a stream that last sent publish `last` and has waited `waited_ms`
    /// for a newer one: wait while nothing newer exists, and give up once it
    /// has waited [`STREAM_STALL_MS`]; otherwise copy the newest frame into
    /// `scratch`, or say how big `scratch` would have to be.
    pub fn next_for(&self, last: u64, waited_ms: u64, scratch: &mut [u8]) -> (n: Next)
        ensures
            final(scratch)@.len() == old(scratch)@.len(),
            (self.published == last || self.frame is None) ==> final(scratch)@ == old(scratch)@ && (if waited_ms
                >= STREAM_STALL_MS {
                n is Stalled
            } else {
                n is Wait
            }),
            self.frame matches Some(j) ==> (self.published != last ==> {
                if j.bytes@.len() > old(scratch)@.len() {
                    n == Next::TooSmall { needed: j.bytes@.len() as usize } && final(scratch)@ == old(scratch)@
                } else {
                    &&& n == Next::Frame { seen: self.published, len: j.bytes@.len() as usize, timestamp: j.timestamp }
                    &&& final(scratch)@.subrange(0, j.bytes@.len() as int) == j.bytes@
                    &&& final(scratch)@.subrange(j.bytes@.len() as int, old(scratch)@.len() as int)
                        == old(scratch)@.subrange(j.bytes@.len() as int, old(scratch)@.len() as int)
                }
            }),
    {
        if self.published == last || self.frame.is_none() {
            return if waited_ms >= STREAM_STALL_MS {
                Next::Stalled
            } else {
                Next::Wait
            };
        }
        match &self.frame {
            None => Next::Wait,
            Some(j) => {
                let n = j.bytes.len();
                if scratch.len() < n {
                    return Next::TooSmall { needed: n };
                }
                let mut i: usize = 0;
                while i < n
                    invariant
                        n == j.bytes@.len(),
                        n <= scratch@.len(),
                        i <= n,
                        scratch@.len() == old(scratch)@.len(),
                        forall|k: int| 0 <= k < i ==> scratch@[k] == j.bytes@[k],
                        forall|k: int| n <= k < scratch@.len() ==> scratch@[k] == old(scratch)@[k],
                    decreases n - i,
                {
                    scratch[i] = j.bytes[i];
                    i = i + 1;
                }
                assert(scratch@.subrange(0, n as int) =~= j.bytes@);
                assert(scratch@.subrange(n as int, scratch@.len() as int) =~= old(scratch)@.subrange(
                    n as int,
                    old(scratch)@.len() as int,
                ));
                Next::Frame { seen: self.published, len: n, timestamp: j.timestamp }
            },
        }
    }
}

} // verus!
