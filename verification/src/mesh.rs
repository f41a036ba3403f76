//! The mesh behind the facade: what the sketch's three verbs decide around
//! the node. The node itself — its endpoint, adoption, the media ALPN — is
//! the iroh package's and runs on its own thread; this module holds the
//! three latest-frame channels the node's subscribers read, the counters the
//! sketch reads back, the node's manifest and mDNS name, and the steps that
//! bring a node up and keep its advertisement current.

use vstd::prelude::*;
use vstd::slice::slice_to_vec;

use rusty_esp_core::capability::Chip;

use crate::board::{Board, Facade, IpAddress, Jpeg, Pcm, board_call, millis};
use crate::error::{self, Error};
use crate::identity;
use crate::text::string_of_chars;

verus! {

/// The chip a manifest names, as the family declares it.
#[verifier::external_type_specification]
#[verifier::external_body]
pub struct ExChip(Chip);

/// `Clone` of the family's chip name, which derives `Copy`: the clone is the
/// value.
pub assume_specification[ <Chip as Clone>::clone ](c: &Chip) -> (d: Chip)
    ensures
        d == *c,
;

/// How many `eventfd`s an async runtime's I/O driver may hold at once.
pub const ASYNC_MAX_FDS: usize = 5;

/// The codec tag JPEG frames carry on the media ALPN (`mjpg`).
pub const CODEC_MJPEG: [u8; 4] = [0x6d, 0x6a, 0x70, 0x67];

/// The codec tag PCM blocks carry on the media ALPN (`pcm `).
pub const CODEC_PCM: [u8; 4] = [0x70, 0x63, 0x6d, 0x20];

/// The codec tag of a telemetry stream (`tlm `): the payload is opaque to
/// the transport.
pub const CODEC_TELEMETRY: [u8; 4] = [0x74, 0x6c, 0x6d, 0x20];

/// The codec tag a subscriber sends to mean "whatever this device makes"
/// (`any `).
pub const CODEC_ANY: [u8; 4] = [0x61, 0x6e, 0x79, 0x20];

/// The media header flag of a key frame; every packet here is one.
pub const FLAG_KEY: u8 = 1;

/// The mDNS instance name a Janus device publishes under.
pub const SIDECAR_INSTANCE: &'static str = "Janus device";

/// The mDNS service type the home computer's pair client browses.
pub const SERVICE_TYPE: &'static str = "_mata-oem-sidecar._tcp.local.";

/// A capability a device can declare.
#[derive(Debug, Clone, Copy, PartialEq, Eq)]
pub enum Capability {
    /// Still images as JPEG.
    ImageJpeg,
    /// Still images as raw pixels.
    ImageRaw,
    /// Motion JPEG stream.
    VideoMjpeg,
    /// H.264 stream.
    VideoH264,
    /// Microphone capture.
    AudioPcmIn,
    /// Speaker / line playback.
    AudioPcmOut,
    /// Opus audio.
    AudioOpus,
    /// FLAC audio.
    AudioFlac,
    /// Wi-Fi station.
    WifiStation,
    /// Wi-Fi access point.
    WifiSoftAp,
    /// Wi-Fi channel state information.
    WifiCsi,
    /// Presence sensing.
    RadarPresence,
    /// Millimetre-wave radar.
    RadarMmWave,
    /// BLE GATT.
    BleGatt,
    /// ESP-NOW.
    EspNow,
    /// LoRa point to point.
    LoraP2p,
    /// LoRaWAN.
    LoraWan,
    /// iroh, LAN-direct.
    IrohLanDirect,
    /// iroh through a relay.
    IrohRelay,
    /// An mID device key.
    MidDevice,
    /// Adopted by an owner.
    MidAdopted,
    /// General-purpose I/O.
    Gpio,
    /// Telemetry stream.
    Telemetry,
    /// Signed over-the-air updates.
    Ota,
}

/// How real a declared capability is.
#[derive(Debug, Clone, Copy, PartialEq, Eq)]
pub enum Status {
    /// Shipped, tested, backed by a named crate.
    Available,
    /// Wired and demonstrable, not yet through its kill test.
    Preview,
    /// Intended; no code claims it.
    Planned,
}

/// One line of the capability manifest.
#[derive(Debug, Clone, Copy, PartialEq, Eq)]
pub struct Declared {
    /// What.
    pub capability: Capability,
    /// How real.
    pub status: Status,
    /// The crate that implements it.
    pub backing: &'static str,
}

impl Declared {
    /// A shipped capability backed by `backing`.
    pub fn available(capability: Capability, backing: &'static str) -> (d: Declared)
        ensures
            d == (Declared { capability, status: Status::Available, backing }),
    {
        Declared { capability, status: Status::Available, backing }
    }
}

/// What the node advertises: the capability manifest and how it is reached.
#[derive(Debug, Clone)]
pub struct Config {
    /// `model=` for the sidecar advertisement, e.g. `janus/porch-cam`.
    pub model: String,
    /// The firmware identifier in the manifest.
    pub firmware: String,
    /// The chip the manifest names.
    pub chip: Chip,
    /// Every capability, with its status and backing crate.
    pub declared: Vec<Declared>,
    /// Relay and pkarr discovery; off is LAN-direct.
    pub relay: bool,
    /// Media subscribers served at once; `0` is no cap.
    pub max_subscribers: u32,
}

impl Config {
    /// A LAN-direct node for `model` on `chip`, declaring nothing yet, with
    /// no cap on subscribers (the host's default; a chip's firmware sets
    /// its own with [`Config::with_max_subscribers`]).
    pub fn new(model: &str, chip: Chip) -> (c: Self)
        ensures
            c.model@ == model@,
            c.firmware@ == "rusty_esp_arduino "@ + crate::VERSION@,
            c.chip == chip,
            c.declared@.len() == 0,
            !c.relay,
            c.max_subscribers == 0,
    {
        Config {
            model: String::from_str(model),
            firmware: String::from_str("rusty_esp_arduino ").concat(crate::VERSION),
            chip,
            declared: Vec::new(),
            relay: false,
            max_subscribers: 0,
        }
    }

    /// Add a declaration.
    pub fn declare(self, declared: Declared) -> (c: Self)
        ensures
            c.declared@ == self.declared@.push(declared),
            c.model == self.model && c.firmware == self.firmware && c.chip == self.chip,
            c.relay == self.relay && c.max_subscribers == self.max_subscribers,
    {
        let mut c = self;
        c.declared.push(declared);
        c
    }

    /// Ask for relay reachability.
    pub fn with_relay(self, relay: bool) -> (c: Self)
        ensures
            c.declared == self.declared && c.model == self.model && c.firmware == self.firmware,
            c.chip == self.chip && c.relay == relay && c.max_subscribers == self.max_subscribers,
    {
        let mut c = self;
        c.relay = relay;
        c
    }

    /// How many media subscribers to serve at once (`0`: no cap).
    pub fn with_max_subscribers(self, max: u32) -> (c: Self)
        ensures
            c.declared == self.declared && c.model == self.model && c.firmware == self.firmware,
            c.chip == self.chip && c.relay == self.relay && c.max_subscribers == max,
    {
        let mut c = self;
        c.max_subscribers = max;
        c
    }
}

/// Whether a manifest already declares signed updates.
pub open spec fn declares_ota(d: Seq<Declared>) -> bool {
    exists|i: int| 0 <= i < d.len() && d[i].capability is Ota
}

/// The declaration of signed updates a node makes for itself.
pub open spec fn ota_declared() -> Declared {
    Declared { capability: Capability::Ota, status: Status::Available, backing: "rusty_esp_iroh" }
}

/// The declarations a node is bound with: `d`, and, when the board handed
/// over an update slot and nothing in `d` declares `ota` yet, `ota`
/// available from the iroh package.
pub open spec fn manifest_with_ota(d: Seq<Declared>, ota_armed: bool) -> Seq<Declared> {
    if ota_armed && !declares_ota(d) {
        d.push(ota_declared())
    } else {
        d
    }
}

/// The manifest a node is bound with: `declared` as given, and, when the
/// board handed over an update slot and nothing declares `ota` yet, `ota`
/// available from the iroh package.
pub fn with_ota(config: Config, ota_armed: bool) -> (c: Config)
    ensures
        c.model == config.model && c.firmware == config.firmware && c.chip == config.chip,
        c.relay == config.relay && c.max_subscribers == config.max_subscribers,
        c.declared@ == manifest_with_ota(config.declared@, ota_armed),
{
    let mut c = config;
    if !ota_armed {
        return c;
    }
    let mut i: usize = 0;
    while i < c.declared.len()
        invariant
            i <= c.declared@.len(),
            c == config,
            forall|k: int| 0 <= k < i ==> !(c.declared@[k].capability is Ota),
        decreases c.declared@.len() - i,
    {
        if let Capability::Ota = c.declared[i].capability {
            return c;
        }
        i = i + 1;
    }
    c.declared.push(Declared::available(Capability::Ota, "rusty_esp_iroh"));
    c
}

// ------------------------------------------------------------ hostname --

/// Whether `c` may stand in a DNS label as it is.
pub open spec fn is_label_char(c: char) -> bool {
    ('a' <= c && c <= 'z') || ('A' <= c && c <= 'Z') || ('0' <= c && c <= '9') || c == '-'
}

/// `c` as it stands in a hostname: letters lower-cased, digits and hyphens
/// kept, everything else a hyphen.
pub open spec fn label_char(c: char) -> char {
    if 'A' <= c && c <= 'Z' {
        ((c as u32) + 32) as char
    } else if is_label_char(c) {
        c
    } else {
        '-'
    }
}

/// Where the last `/`-separated segment of `s[..k]` starts.
pub open spec fn segment_start(s: Seq<char>, k: int) -> int
    decreases k,
{
    if k <= 0 {
        0
    } else if s[k - 1] == '/' {
        k
    } else {
        segment_start(s, k - 1)
    }
}

/// `s` without its leading hyphens.
pub open spec fn trim_start_dashes(s: Seq<char>) -> Seq<char>
    decreases s.len(),
{
    if s.len() > 0 && s[0] == '-' {
        trim_start_dashes(s.drop_first())
    } else {
        s
    }
}

/// `s` without its trailing hyphens.
pub open spec fn trim_end_dashes(s: Seq<char>) -> Seq<char>
    decreases s.len(),
{
    if s.len() > 0 && s.last() == '-' {
        trim_end_dashes(s.drop_last())
    } else {
        s
    }
}

/// The hostname a model publishes under: its last `/` segment, each
/// character made label-safe, cut to one DNS label (63), hyphens trimmed
/// from both ends; `janus` when nothing is left.
pub open spec fn hostname_of(model: Seq<char>) -> Seq<char> {
    let tail = model.subrange(segment_start(model, model.len() as int), model.len() as int);
    let mapped = tail.map_values(|c: char| label_char(c));
    let cut = if mapped.len() > 63 { mapped.take(63) } else { mapped };
    let trimmed = trim_end_dashes(trim_start_dashes(cut));
    if trimmed.len() == 0 {
        "janus"@
    } else {
        trimmed
    }
}

proof fn lemma_trim_start(s: Seq<char>, a: int)
    requires
        0 <= a <= s.len(),
        forall|j: int| 0 <= j < a ==> s[j] == '-',
        a == s.len() || s[a] != '-',
    ensures
        trim_start_dashes(s) == s.subrange(a, s.len() as int),
    decreases a,
{
    if a > 0 {
        lemma_trim_start(s.drop_first(), a - 1);
        assert(s.drop_first().subrange(a - 1, s.len() - 1) =~= s.subrange(a, s.len() as int));
    } else {
        assert(s.subrange(0, s.len() as int) =~= s);
    }
}

proof fn lemma_trim_end(s: Seq<char>, b: int)
    requires
        0 <= b <= s.len(),
        forall|j: int| b <= j < s.len() ==> s[j] == '-',
        b == 0 || s[b - 1] != '-',
    ensures
        trim_end_dashes(s) == s.subrange(0, b),
    decreases s.len() - b,
{
    if b < s.len() {
        lemma_trim_end(s.drop_last(), b);
        assert(s.drop_last().subrange(0, b) =~= s.subrange(0, b));
    } else {
        assert(s.subrange(0, b) =~= s);
    }
}

/// An mDNS hostname from a model: `janus/mesh-cam` is a model, `mesh-cam`
/// is a hostname. Everything that is not a letter, a digit or a hyphen
/// becomes a hyphen, because a label that breaks the rules is one a
/// resolver drops.
pub fn mdns_hostname(model: &str) -> (h: String)
    ensures
        h@ == hostname_of(model@),
{
    let n = model.unicode_len();
    let mut start: usize = 0;
    let mut i: usize = 0;
    while i < n
        invariant
            n == model@.len(),
            i <= n,
            start == segment_start(model@, i as int),
            start <= i,
        decreases n - i,
    {
        if model.get_char(i) == '/' {
            start = i + 1;
        }
        i = i + 1;
    }
    let ghost tail = model@.subrange(start as int, n as int);
    let ghost mapped = tail.map_values(|c: char| label_char(c));
    let end: usize = if n - start > 63 { start + 63 } else { n };
    let mut cut: Vec<char> = Vec::new();
    let mut k: usize = start;
    while k < end
        invariant
            n == model@.len(),
            start <= k <= end <= n,
            end - start <= 63,
            tail == model@.subrange(start as int, n as int),
            mapped == tail.map_values(|c: char| label_char(c)),
            cut@ == mapped.subrange(0, k - start),
        decreases end - k,
    {
        let c = model.get_char(k);
        let l = if 'A' <= c && c <= 'Z' {
            ((c as u32) + 32) as u8 as char
        } else if ('a' <= c && c <= 'z') || ('0' <= c && c <= '9') || c == '-' {
            c
        } else {
            '-'
        };
        assert(l == label_char(c)) by {
            if 'A' <= c && c <= 'Z' {
                assert((((c as u32) + 32) as u8 as char) == (((c as u32) + 32) as char));
            }
        }
        cut.push(l);
        k = k + 1;
        assert(cut@ =~= mapped.subrange(0, k - start));
    }
    let ghost cut_spec = if mapped.len() > 63 { mapped.take(63) } else { mapped };
    assert(cut@ =~= cut_spec);
    let m = cut.len();
    let mut a: usize = 0;
    while a < m && cut[a] == '-'
        invariant
            m == cut@.len(),
            a <= m,
            forall|j: int| 0 <= j < a ==> cut@[j] == '-',
        decreases m - a,
    {
        a = a + 1;
    }
    let mut b: usize = m;
    while b > a && cut[b - 1] == '-'
        invariant
            m == cut@.len(),
            a <= b <= m,
            forall|j: int| b <= j < m ==> cut@[j] == '-',
        decreases b,
    {
        b = b - 1;
    }
    proof {
        lemma_trim_start(cut@, a as int);
        let s1 = cut@.subrange(a as int, m as int);
        assert forall|j: int| (b - a) <= j < s1.len() implies s1[j] == '-' by {
            assert(s1[j] == cut@[a + j]);
        }
        if b > a {
            assert(s1[b - a - 1] == cut@[b - 1]);
        }
        lemma_trim_end(s1, (b - a) as int);
        assert(s1.subrange(0, (b - a) as int) =~= cut@.subrange(a as int, b as int));
    }
    if a == b {
        return String::from_str("janus");
    }
    let mut out: Vec<char> = Vec::new();
    let mut j: usize = a;
    while j < b
        invariant
            a <= j <= b <= m == cut@.len(),
            out@ == cut@.subrange(a as int, j as int),
        decreases b - j,
    {
        out.push(cut[j]);
        j = j + 1;
        assert(out@ =~= cut@.subrange(a as int, j as int));
    }
    string_of_chars(out)
}

} // verus!

verus! {

// ------------------------------------------------------------ channels --

/// The latest frame of one codec, and how many have been pushed.
pub struct Slot {
    /// Pushes so far (wrapping).
    pub seq: u32,
    /// The newest frame: its device time in microseconds and its bytes.
    pub frame: Option<(u64, Vec<u8>)>,
    /// Set when the node stops: every subscriber ends.
    pub closed: bool,
}

/// The next value of a wrapping 32-bit counter.
pub open spec fn next_u32(x: u32) -> u32 {
    if x == u32::MAX {
        0
    } else {
        (x + 1) as u32
    }
}

impl Slot {
    /// An open channel with nothing pushed.
    pub fn new() -> (s: Slot)
        ensures
            s.seq == 0,
            s.frame is None,
            !s.closed,
    {
        Slot { seq: 0, frame: None, closed: false }
    }

    /// Make `bytes`, captured at `timestamp_us`, the newest frame.
    pub fn push(&mut self, timestamp_us: u64, bytes: &[u8])
        ensures
            final(self).seq == next_u32(old(self).seq),
            final(self).frame matches Some(fr) && (fr.0 == timestamp_us && fr.1@ == bytes@),
            final(self).closed == old(self).closed,
    {
        self.seq = if self.seq == u32::MAX { 0 } else { self.seq + 1 };
        self.frame = Some((timestamp_us, slice_to_vec(bytes)));
    }

    /// End every subscriber of this channel.
    pub fn close(&mut self)
        ensures
            final(self).closed,
            final(self).seq == old(self).seq,
            final(self).frame == old(self).frame,
    {
        self.closed = true;
    }
}

/// Which channel a subscriber joined.
#[derive(Debug, Clone, Copy, PartialEq, Eq)]
pub enum Which {
    /// The JPEG frames.
    Video,
    /// The PCM blocks.
    Audio,
    /// The telemetry readings.
    Telemetry,
}

/// One subscriber's place in its channel.
#[derive(Debug, Clone, Copy, PartialEq, Eq)]
pub struct Subscriber {
    /// The channel it reads.
    pub which: Which,
    /// The channel's push count when it last took a frame.
    pub seen: u32,
    /// The sequence number its next packet carries.
    pub out_seq: u32,
}

/// The media header of one packet.
#[derive(Debug, Clone, Copy, PartialEq, Eq)]
pub struct Header {
    /// Per-stream sequence number; gaps are loss.
    pub seq: u32,
    /// Device-monotonic microseconds.
    pub timestamp_us: u64,
    /// Codec tag.
    pub codec: [u8; 4],
    /// Flags: every packet here is a key frame.
    pub flags: u8,
    /// Payload bytes following the header (saturating at `u32::MAX`).
    pub len: u32,
}

/// What a subscriber gets when it asks for its next packet.
pub enum Poll {
    /// The channel closed: the subscription ends.
    Closed,
    /// Nothing newer than what it took: wait for a push.
    Wait,
    /// The newest frame.
    Packet(Header, Vec<u8>),
}

/// Whether two codec tags are the same.
fn same_tag(a: [u8; 4], b: [u8; 4]) -> (same: bool)
    ensures
        same == (a@ == b@),
{
    let same = a[0] == b[0] && a[1] == b[1] && a[2] == b[2] && a[3] == b[3];
    proof {
        if same {
            assert(a@ =~= b@);
        }
    }
    same
}

/// Whether a subscriber at `sub` takes a frame from `slot` now: the channel
/// is open and a frame was pushed since it last took one.
pub open spec fn takes(slot: Slot, sub: Subscriber) -> bool {
    !slot.closed && slot.seq != sub.seen && slot.frame is Some
}

/// The subscriber after it took the newest frame of `slot`: it has seen
/// that push, and its next packet carries the next sequence number.
pub open spec fn taken(slot: Slot, sub: Subscriber) -> Subscriber {
    Subscriber { seen: slot.seq, out_seq: next_u32(sub.out_seq), ..sub }
}

/// The codec tag a channel's packets carry.
pub open spec fn tag_of(which: Which) -> [u8; 4] {
    match which {
        Which::Video => CODEC_MJPEG,
        Which::Audio => CODEC_PCM,
        Which::Telemetry => CODEC_TELEMETRY,
    }
}

/// The codec tag a channel's packets carry.
pub fn tag(which: Which) -> (t: [u8; 4])
    ensures
        t == tag_of(which),
{
    match which {
        Which::Video => CODEC_MJPEG,
        Which::Audio => CODEC_PCM,
        Which::Telemetry => CODEC_TELEMETRY,
    }
}

/// The header of the packet a subscriber at `sub` takes from `slot`.
pub open spec fn header_of(slot: Slot, sub: Subscriber) -> Header {
    Header {
        seq: sub.out_seq,
        timestamp_us: slot.frame->Some_0.0,
        codec: tag_of(sub.which),
        flags: FLAG_KEY,
        len: if slot.frame->Some_0.1@.len() <= u32::MAX { slot.frame->Some_0.1@.len() as u32 } else { u32::MAX },
    }
}

impl Subscriber {
    /// A new subscriber of `which`, joining when the channel's push count
    /// is `joined`: it takes every frame pushed after that, and none before.
    pub fn new(which: Which, joined: u32) -> (s: Subscriber)
        ensures
            s == (Subscriber { which, seen: joined, out_seq: 0 }),
    {
        Subscriber { which, seen: joined, out_seq: 0 }
    }

    /// The next packet from `slot`, this subscriber's channel, tagged with
    /// its codec: the newest frame when one was pushed since this
    /// subscriber last took one, never the same push twice.
    pub fn next_packet(&mut self, slot: &Slot) -> (p: Poll)
        ensures
            slot.closed ==> p is Closed && *final(self) == *old(self),
            !slot.closed && !takes(*slot, *old(self)) ==> p is Wait && *final(self) == *old(self),
            takes(*slot, *old(self)) ==> (p matches Poll::Packet(h, bytes) && h == header_of(*slot, *old(self))
                && bytes@ == slot.frame->Some_0.1@ && *final(self) == taken(*slot, *old(self))),
    {
        if slot.closed {
            return Poll::Closed;
        }
        if slot.seq == self.seen {
            return Poll::Wait;
        }
        match &slot.frame {
            None => Poll::Wait,
            Some(fr) => {
                self.seen = slot.seq;
                let n = fr.1.len();
                let len: u32 = if n <= u32::MAX as usize { n as u32 } else { u32::MAX };
                let header = Header {
                    seq: self.out_seq,
                    timestamp_us: fr.0,
                    codec: tag(self.which),
                    flags: FLAG_KEY,
                    len,
                };
                self.out_seq = if self.out_seq == u32::MAX { 0 } else { self.out_seq + 1 };
                Poll::Packet(header, slice_to_vec(fr.1.as_slice()))
            },
        }
    }
}

/// The channel a subscription asking for `codec` reads: the named one, or,
/// for [`CODEC_ANY`], what the device is actually making — the camera if it
/// has pushed a frame, else the microphone, else the sensor, else the video
/// channel to wait on. `None` for a codec nothing here produces.
pub open spec fn channel_of(codec: Seq<u8>, frames: u32, blocks: u32, readings: u32) -> Option<Which> {
    if codec == CODEC_MJPEG@ {
        Some(Which::Video)
    } else if codec == CODEC_PCM@ {
        Some(Which::Audio)
    } else if codec == CODEC_TELEMETRY@ {
        Some(Which::Telemetry)
    } else if codec == CODEC_ANY@ {
        if frames > 0 {
            Some(Which::Video)
        } else if blocks > 0 {
            Some(Which::Audio)
        } else if readings > 0 {
            Some(Which::Telemetry)
        } else {
            Some(Which::Video)
        }
    } else {
        None
    }
}

/// The channel a subscription asking for `codec` reads, given how many
/// frames, blocks and readings have been pushed.
pub fn channel_for(codec: [u8; 4], frames: u32, blocks: u32, readings: u32) -> (w: Option<Which>)
    ensures
        w == channel_of(codec@, frames, blocks, readings),
{
    if same_tag(codec, CODEC_MJPEG) {
        Some(Which::Video)
    } else if same_tag(codec, CODEC_PCM) {
        Some(Which::Audio)
    } else if same_tag(codec, CODEC_TELEMETRY) {
        Some(Which::Telemetry)
    } else if same_tag(codec, CODEC_ANY) {
        if frames > 0 {
            Some(Which::Video)
        } else if blocks > 0 {
            Some(Which::Audio)
        } else if readings > 0 {
            Some(Which::Telemetry)
        } else {
            Some(Which::Video)
        }
    } else {
        None
    }
}

// --------------------------------------------------------------- state --

/// The facade's view of a running node.
pub struct State {
    /// The node's DID (the device's).
    pub did: String,
    /// The adoption ticket, as text.
    pub ticket: String,
    /// The UDP port the endpoint bound.
    pub port: u16,
    /// The node's endpoint id.
    pub endpoint_id: String,
    /// The JPEG channel.
    pub video: Slot,
    /// The PCM channel.
    pub audio: Slot,
    /// The telemetry channel.
    pub telemetry: Slot,
    /// Media subscribers that joined since `begin` (wrapping).
    pub subscribers: u32,
    /// JPEG frames pushed (wrapping).
    pub frames: u32,
    /// PCM blocks pushed (wrapping).
    pub blocks: u32,
    /// Telemetry readings pushed (wrapping).
    pub readings: u32,
    /// Media packets the node put on the wire.
    pub node_sent: u32,
    /// Media packets the node could not send.
    pub node_send_errors: u32,
    /// Subscriptions the node accepted.
    pub node_subscribers: u32,
    /// A TXT record waiting to be re-advertised by `service`.
    pub readvertise: Option<Vec<(String, String)>>,
    /// Whether the node was adopted at the last look.
    pub adopted_seen: bool,
    /// The firmware string of an update the node accepted, once there is one.
    pub last_ota: Option<String>,
}

/// The facade's view of the node.
#[derive(Debug, Clone, PartialEq, Eq)]
pub struct Stats {
    /// Media subscribers that joined since `begin`.
    pub subscribers: u32,
    /// JPEG frames pushed.
    pub frames: u64,
    /// PCM blocks pushed.
    pub blocks: u64,
    /// Telemetry readings pushed.
    pub readings: u64,
    /// Media packets the node put on the wire, which is not the number of
    /// frames the sketch pushed.
    pub sent: u32,
    /// Media packets the node could not send.
    pub send_errors: u32,
    /// Subscriptions the node accepted.
    pub node_subscribers: u32,
}

/// What the node reported once it was up.
pub struct Node {
    /// Its DID.
    pub did: String,
    /// Its adoption ticket, as text.
    pub ticket: String,
    /// Its UDP port.
    pub port: u16,
    /// The sidecar TXT record to advertise.
    pub txt: Vec<(String, String)>,
    /// Its endpoint id.
    pub endpoint_id: String,
    /// Whether it was already adopted when it came up: the record it
    /// advertises first was composed from that, so only a later change
    /// re-advertises.
    pub adopted: bool,
}

/// The channel of a running node that `which` names.
pub open spec fn channel_in(s: State, which: Which) -> Slot {
    match which {
        Which::Video => s.video,
        Which::Audio => s.audio,
        Which::Telemetry => s.telemetry,
    }
}

/// The channel of a running node that `which` names.
pub fn channel(s: &State, which: Which) -> (slot: &Slot)
    ensures
        *slot == channel_in(*s, which),
{
    match which {
        Which::Video => &s.video,
        Which::Audio => &s.audio,
        Which::Telemetry => &s.telemetry,
    }
}

/// The refusal a second `begin` gets.
pub open spec fn already_begun() -> Seq<char> {
    "mesh: begin was already called"@
}

/// The first steps of `begin`, before a node is bound: refused when a node
/// is already up, or when `identity::begin` has not handed over a store;
/// then the board prepares the platform for the node's async runtime.
/// `false` records why.
pub fn prepare<B: Board>(f: &mut Facade<B>) -> (ok: bool)
    ensures
        old(f).mesh is Some ==> !ok && (final(f).last matches Some(Error::Io(t)) && t@ == already_begun())
            && final(f).identity == old(f).identity,
        old(f).mesh is None && !identity::holds_store(old(f).identity) ==> !ok && final(f).last
            == Some(Error::NotBegun("identity")),
        ok ==> old(f).mesh is None && identity::holds_store(old(f).identity),
        ok ==> old(f).board is Some,
        old(f).mesh is None ==> final(f).identity == identity::store_handed_over(old(f).identity),
        (final(f).board is Some <==> old(f).board is Some),
        *final(f) == (Facade { board: final(f).board, last: final(f).last, identity: final(f).identity, ..*old(f) }),
        !ok ==> final(f).last is Some,
        ok ==> final(f).last == old(f).last,
        !(old(f).mesh is None && identity::holds_store(old(f).identity)) ==> final(f).board == old(f).board,
        old(f).mesh is None && identity::holds_store(old(f).identity) && old(f).board is None ==> !ok
            && final(f).last == Some(Error::NoBoard),
        old(f).mesh is None && identity::holds_store(old(f).identity) ==> (old(f).board matches Some(b0) ==> exists|
            m: &mut B,
            r: Result<(), Error>,
        |
            mut_ref_current(m) == b0 && final(f).board == Some(mut_ref_future(m)) && #[trigger] call_ensures(
                B::prepare_async,
                (m, ASYNC_MAX_FDS),
                r,
            ) && ok == r is Ok && final(f).last == (match r {
                Ok(_) => old(f).last,
                Err(e) => Some(e),
            })),
{
    if f.mesh.is_some() {
        error::record(f, Error::Io(String::from_str("mesh: begin was already called")));
        return false;
    }
    if !identity::take_store(f) {
        error::record(f, Error::NotBegun("identity"));
        return false;
    }
    let r = match &mut f.board {
        Some(b) => b.prepare_async(ASYNC_MAX_FDS),
        None => Err(Error::NoBoard),
    };
    match r {
        Ok(()) => true,
        Err(e) => {
            error::record(f, e);
            false
        },
    }
}

/// The addresses a node's ticket carries: the board's, when it has one,
/// then loopback.
pub fn addresses<B: Board>(f: &Facade<B>) -> (ips: Vec<IpAddress>)
    ensures
        ips@.len() >= 1,
        ips@.last() == IpAddress::V4([127, 0, 0, 1]),
        f.board is None ==> ips@ == seq![IpAddress::V4([127, 0, 0, 1])],
        f.board matches Some(b) ==> exists|ip: Option<IpAddress>|
            #[trigger] call_ensures(B::local_ip, (&b,), ip) && ips@ == (match ip {
                Some(a) => seq![a, IpAddress::V4([127, 0, 0, 1])],
                None => seq![IpAddress::V4([127, 0, 0, 1])],
            }),
{
    let mut ips: Vec<IpAddress> = Vec::new();
    if let Some(b) = &f.board {
        if let Some(ip) = b.local_ip() {
            ips.push(ip);
        }
    }
    ips.push(IpAddress::V4([127, 0, 0, 1]));
    ips
}

/// `last` records `e` as the reason a non-fatal step failed: an `Io` error
/// of `prefix` followed by `e`'s `Debug` text (stated where that text is).
pub open spec fn noted_as(last: Option<Error>, prefix: Seq<char>, e: Error) -> bool {
    &&& last matches Some(Error::Io(t))
    &&& last->Some_0->Io_0@.len() >= prefix.len()
    &&& last->Some_0->Io_0@.subrange(0, prefix.len() as int) == prefix
    &&& !(e matches Error::Core(c) && !error::named(c)) ==> last->Some_0->Io_0@ == prefix + error::debug_of(e)
}

/// `prefix` and the error's `Debug` text, as the reason a non-fatal step
/// failed.
fn noted(prefix: &str, e: &Error) -> (n: Error)
    ensures
        noted_as(Some(n), prefix@, *e),
{
    let t = String::from_str(prefix).concat(e.debug().as_str());
    assert(t@.subrange(0, prefix@.len() as int) =~= prefix@);
    Error::Io(t)
}

/// Whether signed updates can be taken: they need a maker to trust, so
/// without one every image would be refused and no slot is asked for.
pub open spec fn wants_update_slot(i: Option<identity::State>) -> bool {
    i matches Some(s) && s.maker is Some
}

/// Whether to ask the board for an update slot: only when `identity::begin`
/// was given a maker.
pub fn update_slot_wanted<B>(f: &Facade<B>) -> (want: bool)
    ensures
        want == wants_update_slot(f.identity),
{
    match &f.identity {
        Some(s) => s.maker.is_some(),
        None => false,
    }
}

/// Whether a node is armed for signed updates: the board handed over a slot
/// and the identity has a maker to trust.
pub open spec fn armed(i: Option<identity::State>, slot_given: bool) -> bool {
    slot_given && wants_update_slot(i)
}

/// Settle `begin` once the node was bound (or why it could not be): with a
/// node, publish it under the model's hostname and, when it is armed for
/// signed updates (the board handed over a slot, `slot_given`, and the
/// identity has a maker), tell the bootloader the running image is good.
/// Neither is fatal: a refusal is recorded (the last word of a call that
/// otherwise succeeded, which clears any earlier one) and the node stays up.
pub fn begin<B: Board>(f: &mut Facade<B>, model: &str, slot_given: bool, node: Result<Node, Error>) -> (ok: bool)
    ensures
        old(f).mesh is Some ==> !ok && final(f).mesh == old(f).mesh && (final(f).last matches Some(Error::Io(t))
            && t@ == already_begun()),
        old(f).mesh is None ==> ok == node is Ok,
        old(f).mesh is None && node is Err ==> final(f).last == Some(node->Err_0) && final(f).mesh is None,
        ok ==> (final(f).mesh matches Some(s) && s.did == node->Ok_0.did && s.ticket == node->Ok_0.ticket
            && s.port == node->Ok_0.port && s.endpoint_id == node->Ok_0.endpoint_id && s.subscribers == 0
            && s.frames == 0 && s.blocks == 0 && s.readings == 0 && s.readvertise is None
            && s.last_ota is None && s.adopted_seen == node->Ok_0.adopted && !s.video.closed
            && s.video.frame is None && !s.audio.closed
            && s.audio.frame is None && !s.telemetry.closed && s.telemetry.frame is None),
        (final(f).board is Some <==> old(f).board is Some),
        *final(f) == (Facade { board: final(f).board, last: final(f).last, mesh: final(f).mesh, ..*old(f) }),
        !ok ==> final(f).board == old(f).board,
        ok && !armed(old(f).identity, slot_given) ==> (old(f).board matches Some(b0) ==> exists|
            m1: &mut B,
            h: &str,
            t: &[(String, String)],
            ra: Result<(), Error>,
        |
            #![trigger call_ensures(B::advertise, (m1, h, SIDECAR_INSTANCE, SERVICE_TYPE, node->Ok_0.port, t), ra)]
            mut_ref_current(m1) == b0 && h@ == hostname_of(model@) && t@ == node->Ok_0.txt@ && call_ensures(
                B::advertise,
                (m1, h, SIDECAR_INSTANCE, SERVICE_TYPE, node->Ok_0.port, t),
                ra,
            ) && final(f).board == Some(mut_ref_future(m1)) && (ra is Ok ==> final(f).last is None) && (
            ra matches Err(e) ==> noted_as(final(f).last, "mesh: advertise: "@, e))),
        ok && armed(old(f).identity, slot_given) ==> (old(f).board matches Some(b0) ==> exists|
            m1: &mut B,
            h: &str,
            t: &[(String, String)],
            ra: Result<(), Error>,
            m2: &mut B,
            rv: Result<(), Error>,
        |
            #![trigger call_ensures(B::advertise, (m1, h, SIDECAR_INSTANCE, SERVICE_TYPE, node->Ok_0.port, t), ra), call_ensures(B::ota_running_valid, (m2,), rv)]
            mut_ref_current(m1) == b0 && h@ == hostname_of(model@) && t@ == node->Ok_0.txt@ && call_ensures(
                B::advertise,
                (m1, h, SIDECAR_INSTANCE, SERVICE_TYPE, node->Ok_0.port, t),
                ra,
            ) && mut_ref_current(m2) == mut_ref_future(m1) && call_ensures(B::ota_running_valid, (m2,), rv)
                && final(f).board == Some(mut_ref_future(m2)) && (rv is Ok && ra is Ok ==> final(f).last is None) && (rv is Ok && ra is Err ==> noted_as(final(f).last, "mesh: advertise: "@, ra->Err_0)) && (
            rv matches Err(e) ==> noted_as(final(f).last, "mesh: ota_running_valid: "@, e))),
{
    if f.mesh.is_some() {
        error::record(f, Error::Io(String::from_str("mesh: begin was already called")));
        return false;
    }
    let node = match node {
        Err(e) => {
            error::record(f, e);
            return false;
        },
        Ok(n) => n,
    };
    error::clear(f);
    let hostname = mdns_hostname(model);
    let advertised = match &mut f.board {
        Some(b) => b.advertise(hostname.as_str(), SIDECAR_INSTANCE, SERVICE_TYPE, node.port, node.txt.as_slice()),
        None => Err(Error::NoBoard),
    };
    if let Err(e) = advertised {
        error::record(f, noted("mesh: advertise: ", &e));
    }
    if slot_given && update_slot_wanted(f) {
        let valid = match &mut f.board {
            Some(b) => b.ota_running_valid(),
            None => Err(Error::NoBoard),
        };
        if let Err(e) = valid {
            error::record(f, noted("mesh: ota_running_valid: ", &e));
        }
    }
    f.mesh = Some(
        State {
            did: node.did,
            ticket: node.ticket,
            port: node.port,
            endpoint_id: node.endpoint_id,
            video: Slot::new(),
            audio: Slot::new(),
            telemetry: Slot::new(),
            subscribers: 0,
            frames: 0,
            blocks: 0,
            readings: 0,
            node_sent: 0,
            node_send_errors: 0,
            node_subscribers: 0,
            readvertise: None,
            adopted_seen: node.adopted,
            last_ota: None,
        },
    );
    true
}

} // verus!

verus! {

// --------------------------------------------------------------- verbs --

/// Offer `frame` to every media subscriber (the newest frame wins when a
/// subscriber is slower than the camera). `false` before `begin`, and the
/// refusal names `mesh`.
pub fn push_media<B>(f: &mut Facade<B>, frame: &Jpeg) -> (ok: bool)
    ensures
        ok == old(f).mesh is Some,
        !ok ==> *final(f) == (Facade { last: Some(Error::NotBegun("mesh")), ..*old(f) }),
        ok ==> *final(f) == (Facade { mesh: final(f).mesh, last: None, ..*old(f) }),
        ok ==> (final(f).mesh matches Some(s) && old(f).mesh matches Some(o) && s.frames == next_u32(o.frames)
            && s.video.seq == next_u32(o.video.seq) && s.video.closed == o.video.closed
            && (s.video.frame matches Some(fr) && fr.0 == frame.timestamp.0 && fr.1@ == frame.bytes@)
            && s == (State { frames: s.frames, video: s.video, ..o })),
{
    match &mut f.mesh {
        Some(s) => {
            s.video.push(frame.timestamp.0, frame.bytes.as_slice());
            s.frames = if s.frames == u32::MAX { 0 } else { s.frames + 1 };
        },
        None => {
            error::record(f, Error::NotBegun("mesh"));
            return false;
        },
    }
    error::clear(f);
    true
}

/// Offer `pcm` to every PCM subscriber. `false` before `begin`.
pub fn push_media_pcm<B>(f: &mut Facade<B>, pcm: &Pcm) -> (ok: bool)
    ensures
        ok == old(f).mesh is Some,
        !ok ==> *final(f) == (Facade { last: Some(Error::NotBegun("mesh")), ..*old(f) }),
        ok ==> *final(f) == (Facade { mesh: final(f).mesh, last: None, ..*old(f) }),
        ok ==> (final(f).mesh matches Some(s) && old(f).mesh matches Some(o) && s.blocks == next_u32(o.blocks)
            && s.audio.seq == next_u32(o.audio.seq) && s.audio.closed == o.audio.closed
            && (s.audio.frame matches Some(fr) && fr.0 == pcm.timestamp.0 && fr.1@ == pcm.bytes@)
            && s == (State { blocks: s.blocks, audio: s.audio, ..o })),
{
    match &mut f.mesh {
        Some(s) => {
            s.audio.push(pcm.timestamp.0, pcm.bytes.as_slice());
            s.blocks = if s.blocks == u32::MAX { 0 } else { s.blocks + 1 };
        },
        None => {
            error::record(f, Error::NotBegun("mesh"));
            return false;
        },
    }
    error::clear(f);
    true
}

/// The board's clock in microseconds, from its milliseconds (saturating).
pub open spec fn micros_of_millis(ms: u64) -> u64 {
    if ms > u64::MAX / 1000 {
        u64::MAX
    } else {
        (ms * 1000) as u64
    }
}

/// Offer `reading` to every telemetry subscriber, stamped with the board's
/// clock in microseconds (saturating). The bytes are opaque to the mesh.
/// `false` before `begin`.
pub fn push_telemetry<B: Board>(f: &mut Facade<B>, reading: &[u8]) -> (ok: bool)
    ensures
        ok == old(f).mesh is Some,
        !ok ==> *final(f) == (Facade { last: Some(Error::NotBegun("mesh")), ..*old(f) }),
        ok ==> *final(f) == (Facade { mesh: final(f).mesh, last: None, ..*old(f) }),
        ok ==> (final(f).mesh matches Some(s) && old(f).mesh matches Some(o) && s.readings == next_u32(
            o.readings,
        ) && s.telemetry.seq == next_u32(o.telemetry.seq) && s.telemetry.closed == o.telemetry.closed
            && (s.telemetry.frame matches Some(fr) && fr.1@ == reading@) && s == (State {
            readings: s.readings,
            telemetry: s.telemetry,
            ..o
        })),
        ok && old(f).board is None ==> (final(f).mesh matches Some(s) && s.telemetry.frame matches Some(fr)
            && fr.0 == 0),
        ok ==> (old(f).board matches Some(b) ==> exists|ms: u64|
            #[trigger] call_ensures(B::millis, (&b,), ms) && (final(f).mesh matches Some(s)
                && s.telemetry.frame matches Some(fr) && fr.0 == micros_of_millis(ms))),
{
    let ms = millis(f);
    let at: u64 = if ms > u64::MAX / 1000 { u64::MAX } else { ms * 1000 };
    match &mut f.mesh {
        Some(s) => {
            s.telemetry.push(at, reading);
            s.readings = if s.readings == u32::MAX { 0 } else { s.readings + 1 };
        },
        None => {
            error::record(f, Error::NotBegun("mesh"));
            return false;
        },
    }
    error::clear(f);
    true
}

/// The counters of a node's state as the sketch reads them.
pub open spec fn stats_of(s: State) -> Stats {
    Stats {
        subscribers: s.subscribers,
        frames: s.frames as u64,
        blocks: s.blocks as u64,
        readings: s.readings as u64,
        sent: s.node_sent,
        send_errors: s.node_send_errors,
        node_subscribers: s.node_subscribers,
    }
}

/// Give the node its turn: a TXT record the node queued since the last call
/// (its owner pin changed) is handed to the board here, on the sketch's
/// side, and the counters are returned (zeros before `begin`). A board that
/// refuses the record is noted in the last error; the node carries on.
pub fn service<B: Board>(f: &mut Facade<B>) -> (st: Stats)
    ensures
        match old(f).mesh {
            Some(o) => final(f).mesh == Some(State { readvertise: None, ..o }) && st == stats_of(o),
            None => final(f).mesh is None && st == (Stats {
                subscribers: 0,
                frames: 0,
                blocks: 0,
                readings: 0,
                sent: 0,
                send_errors: 0,
                node_subscribers: 0,
            }),
        },
        (old(f).mesh is None || (old(f).mesh matches Some(o) && o.readvertise is None)) ==> final(f).last
            == old(f).last && final(f).board == old(f).board,
        (final(f).board is Some <==> old(f).board is Some),
        *final(f) == (Facade { board: final(f).board, last: final(f).last, mesh: final(f).mesh, ..*old(f) }),
        old(f).mesh matches Some(o) ==> (o.readvertise matches Some(txt) ==> (old(f).board matches Some(b0)
            ==> exists|m: &mut B, t: &[(String, String)], r: Result<(), Error>|
            mut_ref_current(m) == b0 && t@ == txt@ && #[trigger] call_ensures(
                B::advertise_txt,
                (m, SERVICE_TYPE, t),
                r,
            ) && final(f).board == Some(mut_ref_future(m)) && (r is Ok ==> final(f).last == old(f).last) && (
            r matches Err(e) ==> noted_as(final(f).last, "mesh: advertise_txt: "@, e)))),
{
    let pending = match &mut f.mesh {
        Some(s) => s.readvertise.take(),
        None => None,
    };
    if let Some(txt) = pending {
        let r = match &mut f.board {
            Some(b) => b.advertise_txt(SERVICE_TYPE, txt.as_slice()),
            None => Err(Error::NoBoard),
        };
        if let Err(e) = r {
            error::record(f, noted("mesh: advertise_txt: ", &e));
        }
    }
    match &f.mesh {
        Some(s) => Stats {
            subscribers: s.subscribers,
            frames: s.frames as u64,
            blocks: s.blocks as u64,
            readings: s.readings as u64,
            sent: s.node_sent,
            send_errors: s.node_send_errors,
            node_subscribers: s.node_subscribers,
        },
        None => Stats {
            subscribers: 0,
            frames: 0,
            blocks: 0,
            readings: 0,
            sent: 0,
            send_errors: 0,
            node_subscribers: 0,
        },
    }
}

/// A new media subscription asking for `codec`: counted, and placed on the
/// channel [`channel_for`] picks, at that channel's current push count so
/// that it takes only what is pushed after it joined; `None` for a codec
/// nothing here produces (the subscription is over before it starts) and
/// before `begin`.
pub fn subscribe<B>(f: &mut Facade<B>, codec: [u8; 4]) -> (sub: Option<Subscriber>)
    ensures
        match old(f).mesh {
            None => sub is None && *final(f) == *old(f),
            Some(o) => {
                &&& final(f).mesh == Some(State { subscribers: next_u32(o.subscribers), ..o })
                &&& *final(f) == (Facade { mesh: final(f).mesh, ..*old(f) })
                &&& match channel_of(codec@, o.frames, o.blocks, o.readings) {
                    Some(w) => sub == Some(Subscriber { which: w, seen: channel_in(o, w).seq, out_seq: 0 }),
                    None => sub is None,
                }
            },
        },
{
    match &mut f.mesh {
        None => None,
        Some(s) => {
            s.subscribers = if s.subscribers == u32::MAX { 0 } else { s.subscribers + 1 };
            match channel_for(codec, s.frames, s.blocks, s.readings) {
                Some(w) => {
                    let joined = channel(s, w).seq;
                    Some(Subscriber::new(w, joined))
                },
                None => None,
            }
        },
    }
}

/// The node's own counters, as the node thread copies them out.
pub fn observe_counters<B>(f: &mut Facade<B>, sent: u32, send_errors: u32, subscribers: u32)
    ensures
        match old(f).mesh {
            None => *final(f) == *old(f),
            Some(o) => *final(f) == (Facade {
                mesh: Some(State { node_sent: sent, node_send_errors: send_errors, node_subscribers: subscribers, ..o }),
                ..*old(f)
            }),
        },
{
    if let Some(s) = &mut f.mesh {
        s.node_sent = sent;
        s.node_send_errors = send_errors;
        s.node_subscribers = subscribers;
    }
}

/// A node's state after it was seen adopted (or not) with `txt` as the
/// record it would advertise: a change queues the record.
pub open spec fn after_adoption(o: State, adopted: bool, txt: Vec<(String, String)>) -> State {
    State {
        adopted_seen: adopted,
        readvertise: if adopted != o.adopted_seen { Some(txt) } else { o.readvertise },
        ..o
    }
}

/// Whether the node is adopted now, and the TXT record it would advertise:
/// only a change queues a re-advertisement, so a device that boots already
/// adopted does not replace its record with itself.
pub fn observe_adoption<B>(f: &mut Facade<B>, adopted: bool, txt: Vec<(String, String)>)
    ensures
        match old(f).mesh {
            None => *final(f) == *old(f),
            Some(o) => *final(f) == (Facade { mesh: Some(after_adoption(o, adopted, txt)), ..*old(f) }),
        },
{
    if let Some(s) = &mut f.mesh {
        if adopted != s.adopted_seen {
            s.readvertise = Some(txt);
        }
        s.adopted_seen = adopted;
    }
}

/// The firmware string of the update the node has accepted into its boot
/// slot, if any: kept once seen, replaced only by a different one.
pub fn observe_ota<B>(f: &mut Facade<B>, accepted: Option<String>)
    ensures
        match (old(f).mesh, accepted) {
            (Some(o), Some(fw)) => *final(f) == (Facade {
                mesh: Some(State {
                    last_ota: if (o.last_ota matches Some(k) && k@ == fw@) { o.last_ota } else { Some(fw) },
                    ..o
                }),
                ..*old(f)
            }),
            _ => *final(f) == *old(f),
        },
{
    if let Some(fw) = accepted {
        if let Some(s) = &mut f.mesh {
            let same = match &s.last_ota {
                Some(k) => *k == fw,
                None => false,
            };
            if !same {
                s.last_ota = Some(fw);
            }
        }
    }
}

/// The node's DID (the device's), once `begin` succeeded.
pub fn did<B>(f: &Facade<B>) -> (d: Option<String>)
    ensures
        match f.mesh {
            Some(s) => d == Some(s.did),
            None => d is None,
        },
{
    match &f.mesh {
        Some(s) => Some(s.did.clone()),
        None => None,
    }
}

/// The adoption ticket a home computer scans, as text.
pub fn ticket<B>(f: &Facade<B>) -> (t: Option<String>)
    ensures
        match f.mesh {
            Some(s) => t == Some(s.ticket),
            None => t is None,
        },
{
    match &f.mesh {
        Some(s) => Some(s.ticket.clone()),
        None => None,
    }
}

/// The firmware string of an update the node accepted into the boot slot,
/// once there is one: the sketch's cue to restart.
pub fn last_ota<B>(f: &Facade<B>) -> (fw: Option<String>)
    ensures
        match f.mesh {
            Some(s) => fw == s.last_ota,
            None => fw is None,
        },
{
    match &f.mesh {
        Some(s) => match &s.last_ota {
            Some(k) => Some(k.clone()),
            None => None,
        },
        None => None,
    }
}

/// The node's endpoint id, once `begin` succeeded.
pub fn endpoint_id<B>(f: &Facade<B>) -> (id: Option<String>)
    ensures
        match f.mesh {
            Some(s) => id == Some(s.endpoint_id),
            None => id is None,
        },
{
    match &f.mesh {
        Some(s) => Some(s.endpoint_id.clone()),
        None => None,
    }
}

/// The UDP port the endpoint bound.
pub fn port<B>(f: &Facade<B>) -> (p: Option<u16>)
    ensures
        match f.mesh {
            Some(s) => p == Some(s.port),
            None => p is None,
        },
{
    match &f.mesh {
        Some(s) => Some(s.port),
        None => None,
    }
}

/// Whether `begin` succeeded.
pub fn begun<B>(f: &Facade<B>) -> (b: bool)
    ensures
        b == f.mesh is Some,
{
    f.mesh.is_some()
}

/// Stop serving: every channel closes so its subscribers end, and the
/// node's state is forgotten (the node thread is stopped by its owner).
pub fn end<B>(f: &mut Facade<B>)
    ensures
        *final(f) == (Facade { mesh: None, ..*old(f) }),
{
    if let Some(s) = &mut f.mesh {
        s.video.close();
        s.audio.close();
        s.telemetry.close();
    }
    f.mesh = None;
}

} // verus!
