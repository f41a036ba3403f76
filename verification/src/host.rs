//! The laptop board's logic: reading a JPEG's size, cycling a directory of
//! frames, looping a WAV file, and the queues a test fills for the sensor
//! and the phone. The files, clocks and sockets stay with the program that
//! owns them.

use vstd::prelude::*;
use vstd::slice::slice_to_vec;

use rusty_esp_audio_core::codec::wav::{WavCodec, WavHeader};
use rusty_esp_core::error::Error as CoreError;
use rusty_esp_core::frame::{Geometry, PixelFormat};
use rusty_esp_core::pcm::SampleFormat as FamilySample;
use rusty_esp_image_core::source::{ImageSource, TestPattern};

use crate::board::{Jpeg, Pcm};
use crate::cam;
use crate::error::{Error, Fault, family, family_error};
use crate::mic;
use crate::radar::Presence;
use crate::units::{Micros, PcmFormat, SampleFormat, bytes_for_micros};

verus! {

/// A big-endian 16-bit value from two bytes.
pub open spec fn be16(hi: u8, lo: u8) -> u16 {
    ((hi as int) * 256 + (lo as int)) as u16
}

/// The markers that open a frame header (SOF0..SOF15 except DHT, JPG and
/// DAC).
pub open spec fn is_sof(marker: u8) -> bool {
    0xC0 <= marker <= 0xCF && marker != 0xC4 && marker != 0xC8 && marker != 0xCC
}

/// Walk the marker segments of `b` from position `i`: the frame header's
/// `(width, height)`, or `None` when a scan or the end of the image, a
/// non-marker byte, or the end of the bytes comes first.
pub open spec fn scan_markers(b: Seq<u8>, i: int) -> Option<(u16, u16)>
    decreases b.len() - i,
{
    if i < 0 || i + 4 > b.len() {
        None
    } else if b[i] != 0xFF {
        None
    } else if b[i + 1] == 0xFF {
        scan_markers(b, i + 1)
    } else if is_sof(b[i + 1]) {
        if i + 9 > b.len() {
            None
        } else {
            Some((be16(b[i + 7], b[i + 8]), be16(b[i + 5], b[i + 6])))
        }
    } else if b[i + 1] == 0xD9 || b[i + 1] == 0xDA {
        None
    } else {
        let next = i + 2 + be16(b[i + 2], b[i + 3]);
        if next + 4 > b.len() {
            None
        } else {
            scan_markers(b, next)
        }
    }
}

/// The size a JPEG's frame header states: `None` unless `b` starts with SOI
/// and a frame header comes before any scan.
pub open spec fn jpeg_dimensions(b: Seq<u8>) -> Option<(u16, u16)> {
    if b.len() < 4 || b[0] != 0xFF || b[1] != 0xD8 {
        None
    } else {
        scan_markers(b, 2)
    }
}

/// Width and height from a JPEG's SOF marker; `None` for anything that is
/// not a JPEG with a frame header before its scan.
pub fn jpeg_size(bytes: &[u8]) -> (size: Option<(u16, u16)>)
    ensures
        size == jpeg_dimensions(bytes@),
        size is Some ==> bytes@.len() >= 4 && bytes@[0] == 0xFF && bytes@[1] == 0xD8,
{
    if bytes.len() < 4 || bytes[0] != 0xFF || bytes[1] != 0xD8 {
        return None;
    }
    let mut i: usize = 2;
    while 4 <= bytes.len() - i
        invariant
            2 <= i <= bytes@.len(),
            bytes@.len() >= 4,
            bytes@[0] == 0xFF && bytes@[1] == 0xD8,
            jpeg_dimensions(bytes@) == scan_markers(bytes@, i as int),
        decreases bytes@.len() - i,
    {
        if bytes[i] != 0xFF {
            return None;
        }
        let marker = bytes[i + 1];
        if marker == 0xFF {
            i = i + 1;
            continue;
        }
        let len: usize = (bytes[i + 2] as usize) * 256 + (bytes[i + 3] as usize);
        let is_sof = 0xC0 <= marker && marker <= 0xCF && marker != 0xC4 && marker != 0xC8
            && marker != 0xCC;
        if is_sof {
            if 9 > bytes.len() - i {
                return None;
            }
            let height: u16 = (bytes[i + 5] as u16) * 256 + (bytes[i + 6] as u16);
            let width: u16 = (bytes[i + 7] as u16) * 256 + (bytes[i + 8] as u16);
            return Some((width, height));
        }
        if marker == 0xD9 || marker == 0xDA {
            return None;
        }
        if 2 + len > bytes.len() - i {
            return None;
        }
        i = i + 2 + len;
    }
    None
}

// ------------------------------------------------------------------ camera --

/// What the laptop camera refuses: a zero rate or a zero dimension.
pub fn check_camera(config: &cam::Config) -> (r: Result<(), Error>)
    ensures
        r is Ok <==> (config.fps != 0 && config.width != 0 && config.height != 0),
        r is Err ==> r == Err::<(), Error>(Error::Core(family_error(Fault::Unsupported))),
{
    if config.fps == 0 || config.width == 0 || config.height == 0 {
        return Err(Error::Core(family(Fault::Unsupported)));
    }
    Ok(())
}

/// The pattern camera's frame size: both dimensions must fit a `u16`, the
/// JPEG header's field.
pub fn pattern_size(config: &cam::Config) -> (r: Result<(u16, u16), Error>)
    ensures
        r is Ok <==> (config.width <= u16::MAX && config.height <= u16::MAX),
        r matches Ok(wh) ==> wh.0 == config.width && wh.1 == config.height,
        r is Err ==> r == Err::<(u16, u16), Error>(Error::Core(family_error(Fault::Unsupported))),
{
    if config.width > 65535 || config.height > 65535 {
        return Err(Error::Core(family(Fault::Unsupported)));
    }
    Ok((config.width as u16, config.height as u16))
}

/// The JPEG quality an encoder is given: the configured one, clamped to
/// `1..=100`.
pub fn clamp_quality(q: u8) -> (c: u8)
    ensures
        c == (if q < 1 { 1 } else if q > 100 { 100 } else { q }),
{
    if q < 1 {
        1
    } else if q > 100 {
        100
    } else {
        q
    }
}

/// Microseconds between frames (or blocks) at `per_second` a second.
pub fn interval_micros(per_second: u32) -> (us: u64)
    requires
        per_second != 0,
    ensures
        us == 1_000_000nat / (per_second as nat),
{
    1_000_000 / (per_second as u64)
}

/// `c` as ASCII lower case.
pub open spec fn ascii_lower(c: u8) -> u8 {
    if 65 <= c <= 90 { (c + 32) as u8 } else { c }
}

/// Whether `name` ends in `suffix`, ASCII case ignored in `name`.
pub open spec fn ends_with_folded(name: Seq<u8>, suffix: Seq<u8>) -> bool {
    &&& suffix.len() <= name.len()
    &&& forall|k: int| 0 <= k < suffix.len() ==> ascii_lower(#[trigger] name[name.len() - suffix.len() + k]) == suffix[k]
}

/// Whether a file named `name` is a JPEG: its extension (what follows the
/// last dot, when something comes before that dot) is `jpg` or `jpeg` in any
/// case.
pub open spec fn is_jpeg_name(name: Seq<u8>) -> bool {
    ||| name.len() > 4 && ends_with_folded(name, seq![46u8, 106u8, 112u8, 103u8])
    ||| name.len() > 5 && ends_with_folded(name, seq![46u8, 106u8, 112u8, 101u8, 103u8])
}

/// Whether `name` ends in `suffix`, ASCII case ignored in `name`.
fn ends_with_folded_exec(name: &[u8], suffix: &[u8]) -> (b: bool)
    ensures
        b == ends_with_folded(name@, suffix@),
{
    if suffix.len() > name.len() {
        return false;
    }
    let n: usize = name.len();
    let at: usize = n - suffix.len();
    let mut k: usize = 0;
    while k < suffix.len()
        invariant
            n == name@.len(),
            at + suffix@.len() == name@.len(),
            k <= suffix@.len() <= name@.len(),
            forall|j: int| 0 <= j < k ==> ascii_lower(#[trigger] name@[name@.len() - suffix@.len() + j]) == suffix@[j],
        decreases suffix@.len() - k,
    {
        let c = name[at + k];
        assert(c == name@[name@.len() - suffix@.len() + k]);
        let lower: u8 = if 65 <= c && c <= 90 { c + 32 } else { c };
        if lower != suffix[k] {
            assert(ascii_lower(name@[name@.len() - suffix@.len() + k]) != suffix@[k as int]);
            return false;
        }
        k = k + 1;
    }
    true
}

/// Whether a file named `name` is a JPEG, by its extension.
pub fn jpeg_name(name: &[u8]) -> (b: bool)
    ensures
        b == is_jpeg_name(name@),
{
    let jpg: [u8; 4] = [46, 106, 112, 103];
    let jpeg: [u8; 5] = [46, 106, 112, 101, 103];
    assert(jpg@ =~= seq![46u8, 106u8, 112u8, 103u8]);
    assert(jpeg@ =~= seq![46u8, 106u8, 112u8, 101u8, 103u8]);
    (name.len() > 4 && ends_with_folded_exec(name, jpg.as_slice())) || (name.len() > 5 && ends_with_folded_exec(
        name,
        jpeg.as_slice(),
    ))
}

/// Name order: byte by byte, a name before every longer name it begins.
pub open spec fn name_le(a: Seq<u8>, b: Seq<u8>) -> bool
    decreases a.len(),
{
    if a.len() == 0 {
        true
    } else if b.len() == 0 {
        false
    } else if a[0] != b[0] {
        a[0] < b[0]
    } else {
        name_le(a.drop_first(), b.drop_first())
    }
}

/// Of two names, one comes first.
pub proof fn lemma_name_le_total(a: Seq<u8>, b: Seq<u8>)
    ensures
        name_le(a, b) || name_le(b, a),
    decreases a.len(),
{
    if a.len() > 0 && b.len() > 0 && a[0] == b[0] {
        lemma_name_le_total(a.drop_first(), b.drop_first());
    }
}

/// Name order is transitive.
pub proof fn lemma_name_le_transitive(a: Seq<u8>, b: Seq<u8>, c: Seq<u8>)
    requires
        name_le(a, b),
        name_le(b, c),
    ensures
        name_le(a, c),
    decreases a.len(),
{
    if a.len() > 0 && b.len() > 0 && c.len() > 0 && a[0] == b[0] && b[0] == c[0] {
        lemma_name_le_transitive(a.drop_first(), b.drop_first(), c.drop_first());
    }
}

/// Whether `a` comes no later than `b` in name order.
pub fn name_before(a: &[u8], b: &[u8]) -> (r: bool)
    ensures
        r == name_le(a@, b@),
{
    let mut i: usize = 0;
    assert(a@.skip(0) =~= a@ && b@.skip(0) =~= b@);
    while i < a.len() && i < b.len() && a[i] == b[i]
        invariant
            i <= a@.len() && i <= b@.len(),
            name_le(a@, b@) == name_le(a@.skip(i as int), b@.skip(i as int)),
        decreases a@.len() - i,
    {
        assert(a@.skip(i as int).drop_first() =~= a@.skip(i + 1));
        assert(b@.skip(i as int).drop_first() =~= b@.skip(i + 1));
        i = i + 1;
    }
    if i == a.len() {
        true
    } else if i == b.len() {
        false
    } else {
        a[i] < b[i]
    }
}

/// The JPEG files among `names`, as indices into it, in name order: each
/// JPEG name once, nothing else.
pub fn jpeg_order(names: &Vec<Vec<u8>>) -> (order: Vec<usize>)
    ensures
        forall|k: int| 0 <= k < order@.len() ==> (#[trigger] order@[k]) < names@.len() && is_jpeg_name(
            names@[order@[k] as int]@,
        ),
        forall|i: int| 0 <= i < names@.len() && is_jpeg_name(names@[i]@) ==> (#[trigger] order@.contains(i as usize)),
        forall|k: int, l: int| 0 <= k < l < order@.len() ==> order@[k] != order@[l],
        forall|k: int, l: int|
            0 <= k < l < order@.len() ==> name_le(names@[order@[k] as int]@, names@[order@[l] as int]@),
{
    let mut order: Vec<usize> = Vec::new();
    let mut i: usize = 0;
    while i < names.len()
        invariant
            i <= names@.len(),
            forall|k: int| 0 <= k < order@.len() ==> (#[trigger] order@[k]) < i && is_jpeg_name(
                names@[order@[k] as int]@,
            ),
            forall|j: int| 0 <= j < i && is_jpeg_name(names@[j]@) ==> (#[trigger] order@.contains(j as usize)),
            forall|k: int, l: int| 0 <= k < l < order@.len() ==> order@[k] != order@[l],
            forall|k: int, l: int|
                0 <= k < l < order@.len() ==> name_le(names@[order@[k] as int]@, names@[order@[l] as int]@),
        decreases names@.len() - i,
    {
        if jpeg_name(names[i].as_slice()) {
            let mut p: usize = 0;
            while p < order.len() && name_before(names[order[p]].as_slice(), names[i].as_slice())
                invariant
                    p <= order@.len(),
                    i < names@.len(),
                    forall|k: int| 0 <= k < order@.len() ==> (#[trigger] order@[k]) < i,
                    forall|k: int| 0 <= k < p ==> name_le(names@[(#[trigger] order@[k]) as int]@, names@[i as int]@),
                decreases order@.len() - p,
            {
                p = p + 1;
            }
            let ghost before = order@;
            proof {
                assert forall|m: int| p <= m < before.len() implies name_le(
                    names@[i as int]@,
                    names@[(#[trigger] before[m]) as int]@,
                ) by {
                    let x = names@[i as int]@;
                    let y = names@[before[p as int] as int]@;
                    lemma_name_le_total(y, x);
                    if m > p {
                        lemma_name_le_transitive(x, y, names@[before[m] as int]@);
                    }
                }
            }
            order.insert(p, i);
            proof {
                assert(order@ == before.insert(p as int, i));
                before.insert_ensures(p as int, i);
                assert forall|j: int| 0 <= j <= i && is_jpeg_name(names@[j]@) implies #[trigger] order@.contains(
                    j as usize,
                ) by {
                    if j == i {
                        assert(order@[p as int] == i);
                    } else {
                        assert(before.contains(j as usize));
                        let k = choose|k: int| 0 <= k < before.len() && before[k] == j as usize;
                        if k < p {
                            assert(order@[k] == j as usize);
                        } else {
                            assert(order@[k + 1] == j as usize);
                        }
                    }
                }
                assert forall|k: int, l: int| 0 <= k < l < order@.len() implies name_le(
                    names@[order@[k] as int]@,
                    names@[order@[l] as int]@,
                ) by {
                    if l < p {
                    } else if l == p {
                    } else if k > p {
                        assert(order@[k] == before[k - 1] && order@[l] == before[l - 1]);
                    } else if k == p {
                        assert(order@[l] == before[l - 1]);
                    } else {
                        assert(order@[l] == before[l - 1]);
                        lemma_name_le_transitive(
                            names@[before[k] as int]@,
                            names@[i as int]@,
                            names@[before[l - 1] as int]@,
                        );
                    }
                }
            }
        }
        i = i + 1;
    }
    order
}

/// A directory of JPEGs played in name order, looped: the frames and which
/// one comes next.
pub struct DirFrames {
    /// Each file's bytes and its size from its frame header.
    pub frames: Vec<(Vec<u8>, u16, u16)>,
    /// Index of the next frame.
    pub next: usize,
}

impl DirFrames {
    /// Frames and a position in them: at least one frame, the position
    /// inside.
    pub open spec fn wf(&self) -> bool {
        self.frames@.len() > 0 && self.next < self.frames@.len()
    }

    /// The frames of a directory from its JPEG files' bytes, in name order:
    /// every file must carry a frame header, and there must be one.
    /// `dir` names the directory in the refusal.
    pub fn from_files(files: Vec<Vec<u8>>, dir: &str) -> (r: Result<DirFrames, Error>)
        ensures
            r matches Ok(d) ==> (d.wf() && d.next == 0 && d.frames@.len() == files@.len() && forall|k: int|
                0 <= k < files@.len() ==> (#[trigger] d.frames@[k]).0@ == files@[k]@ && jpeg_dimensions(files@[k]@)
                    == Some((d.frames@[k].1, d.frames@[k].2))),
            r is Ok <==> (files@.len() > 0 && forall|k: int| 0 <= k < files@.len() ==> (#[trigger] jpeg_dimensions(files@[k]@)) is Some),
            (exists|k: int| 0 <= k < files@.len() && (#[trigger] jpeg_dimensions(files@[k]@)) is None) ==> r
                == Err::<DirFrames, Error>(Error::Core(family_error(Fault::InvalidFormat))),
            files@.len() == 0 ==> (r matches Err(Error::Io(t)) && t@ == dir@ + ": no JPEG files"@),
    {
        let mut frames: Vec<(Vec<u8>, u16, u16)> = Vec::new();
        let mut i: usize = 0;
        while i < files.len()
            invariant
                i <= files@.len(),
                frames@.len() == i,
                forall|k: int| 0 <= k < i ==> (#[trigger] jpeg_dimensions(files@[k]@)) is Some,
                forall|k: int| 0 <= k < i ==> (#[trigger] frames@[k]).0@ == files@[k]@ && jpeg_dimensions(files@[k]@)
                    == Some((frames@[k].1, frames@[k].2)),
            decreases files@.len() - i,
        {
            match jpeg_size(files[i].as_slice()) {
                None => {
                    assert(jpeg_dimensions(files@[i as int]@) is None);
                    return Err(Error::Core(family(Fault::InvalidFormat)));
                },
                Some((w, h)) => {
                    frames.push((slice_to_vec(files[i].as_slice()), w, h));
                },
            }
            i = i + 1;
        }
        if frames.len() == 0 {
            return Err(Error::Io(String::from_str(dir).concat(": no JPEG files")));
        }
        Ok(DirFrames { frames, next: 0 })
    }

    /// The next frame, stamped `timestamp`; the directory loops.
    pub fn grab(&mut self, timestamp: Micros) -> (frame: Jpeg)
        requires
            old(self).wf(),
        ensures
            final(self).wf(),
            final(self).frames == old(self).frames,
            final(self).next == (old(self).next + 1) % (old(self).frames@.len() as int),
            frame.bytes@ == old(self).frames@[old(self).next as int].0@,
            frame.width == old(self).frames@[old(self).next as int].1,
            frame.height == old(self).frames@[old(self).next as int].2,
            frame.timestamp == timestamp,
    {
        let n = self.frames.len();
        let k = self.next;
        let bytes = slice_to_vec(self.frames[k].0.as_slice());
        let frame = Jpeg { bytes, width: self.frames[k].1, height: self.frames[k].2, timestamp };
        self.next = if k + 1 == n { 0 } else { k + 1 };
        proof {
            if k + 1 < n {
                vstd::arithmetic::div_mod::lemma_small_mod((k + 1) as nat, n as nat);
            } else {
                vstd::arithmetic::div_mod::lemma_mod_self_0(n as int);
            }
        }
        frame
    }
}

// --------------------------------------------------------- pattern camera --

/// The image package's colour-bar source.
#[verifier::external_type_specification]
#[verifier::external_body]
pub struct ExTestPattern(TestPattern);

/// A frame's size and pixel layout, as the family describes it.
#[verifier::external_type_specification]
#[verifier::external_body]
pub struct ExGeometry(Geometry);

/// The geometry of an RGB888 frame of `width` by `height`.
pub uninterp spec fn rgb_geometry_of(width: u32, height: u32) -> Geometry;

/// `Geometry::new(width, height, Rgb888)`: refused, as `InvalidGeometry`,
/// exactly when a dimension is zero (RGB888 asks for no even size).
#[verifier::external_body]
fn rgb_geometry(width: u32, height: u32) -> (r: Result<Geometry, CoreError>)
    ensures
        r is Ok <==> (width != 0 && height != 0),
        r is Err ==> r->Err_0 == family_error(Fault::InvalidGeometry),
        r matches Ok(g) ==> g == rgb_geometry_of(width, height),
{
    Geometry::new(width, height, PixelFormat::Rgb888)
}

/// The geometry a test pattern draws, as `ImageSource::geometry` reports it.
pub uninterp spec fn pattern_geometry(pattern: TestPattern) -> Geometry;

/// `TestPattern::new`: refused as `InvalidGeometry` at zero frames per
/// second, otherwise refused (as `Unsupported`) only for a layout that is
/// not packed, which an RGB888 geometry is. The pattern draws the geometry
/// it was made with.
#[verifier::external_body]
fn test_pattern(geometry: Geometry, fps: u32) -> (r: Result<TestPattern, CoreError>)
    ensures
        r matches Ok(p) ==> pattern_geometry(p) == geometry,
        fps == 0 ==> r is Err && r->Err_0 == family_error(Fault::InvalidGeometry),
        fps != 0 && r is Err ==> r->Err_0 == family_error(Fault::Unsupported),
        fps != 0 && (exists|w: u32, h: u32| geometry == rgb_geometry_of(w, h)) ==> r is Ok,
{
    TestPattern::new(geometry, fps)
}

/// The pixels of the next frame a test pattern draws: colour bars with a
/// marker row that moves with the frame count the pattern keeps, the same
/// on every platform; as many bytes as its geometry holds.
pub uninterp spec fn pattern_frame(pattern: TestPattern) -> Seq<u8>;

/// `ImageSource::grab` of the test pattern: the next frame's pixels
/// ([`pattern_frame`]) written at the front of `rgb`, the rest of `rgb` and
/// its length kept. It succeeds whenever the pattern is RGB888 of `w` by
/// `h`, that frame fits the address space, and `rgb` holds it; the geometry
/// stays (the frame count moves on). It does not panic: its slicing stays
/// inside the frame it checked `rgb` holds, and its one running sum stays
/// below the width plus seven, which a width that fits a `u16` keeps far
/// from overflow.
#[verifier::external_body]
fn pattern_grab(pattern: &mut TestPattern, rgb: &mut Vec<u8>) -> (r: Result<(), CoreError>)
    requires
        exists|w: u16, h: u16| pattern_geometry(*old(pattern)) == #[trigger] rgb_geometry_of(w as u32, h as u32),
    ensures
        final(rgb)@.len() == old(rgb)@.len(),
        pattern_geometry(*final(pattern)) == pattern_geometry(*old(pattern)),
        forall|w: u32, h: u32|
            pattern_geometry(*old(pattern)) == #[trigger] rgb_geometry_of(w, h) ==> pattern_frame(*old(pattern)).len()
                == rgb_len(w, h),
        forall|w: u32, h: u32|
            pattern_geometry(*old(pattern)) == #[trigger] rgb_geometry_of(w, h) && rgb_len(w, h) <= usize::MAX
                && old(rgb)@.len() >= rgb_len(w, h) ==> r is Ok,
        r is Ok ==> pattern_frame(*old(pattern)).len() <= old(rgb)@.len() && final(rgb)@ == pattern_frame(
            *old(pattern),
        ) + old(rgb)@.subrange(pattern_frame(*old(pattern)).len() as int, old(rgb)@.len() as int),
    no_unwind
{
    pattern.grab(rgb.as_mut_slice()).map(|_| ())
}

/// Whether `jpeg` is a JPEG encoding, as `rusty_jpeg` writes one, of the RGB
/// pixels `rgb` at `width` by `height` and `quality`. The encoder picks its
/// arithmetic by the CPU's vector extensions, so this names a relation, not
/// one file.
pub uninterp spec fn jpeg_encodes(jpeg: Seq<u8>, rgb: Seq<u8>, width: u16, height: u16, quality: u8) -> bool;

/// `rusty_jpeg`'s encoder over RGB pixels at `quality`: the JFIF file, or
/// `None` when it refuses, which it does only for a zero dimension or pixels
/// shorter than `width * height * 3`. The file's frame header states
/// `width` by `height`, behind SOI and the length-prefixed JFIF, table and
/// restart segments. Which other bytes it writes depends on the vector
/// extensions of the machine it runs on, so they are not stated here. The
/// encoder multiplies the row length by the height in `usize`, so a frame
/// past the address space is left out.
#[verifier::external_body]
fn encode_rgb(rgb: &[u8], width: u16, height: u16, quality: u8) -> (jpeg: Option<Vec<u8>>)
    requires
        rgb_len(width as u32, height as u32) <= usize::MAX,
    ensures
        width != 0 && height != 0 && rgb@.len() >= rgb_len(width as u32, height as u32) ==> jpeg is Some,
        jpeg matches Some(j) ==> jpeg_dimensions(j@) == Some((width, height)),
        jpeg matches Some(j) ==> jpeg_encodes(j@, rgb@, width, height, quality),
{
    let mut jpeg = Vec::new();
    let encoder = rusty_jpeg::encode::Encoder::new(&mut jpeg, quality);
    match encoder.encode(rgb, width, height, rusty_jpeg::encode::ColorType::Rgb) {
        Ok(()) => Some(jpeg),
        Err(_) => None,
    }
}

/// Bytes in an RGB888 frame of `width` by `height`.
pub open spec fn rgb_len(width: u32, height: u32) -> nat {
    (width as nat) * (height as nat) * 3
}

/// The laptop's colour-bar camera: the image package's test pattern at the
/// configured size, JPEG-encoded per frame. Its pattern draws frames of its
/// size, neither dimension zero, into a buffer that holds exactly one.
pub struct PatternCam {
    pattern: TestPattern,
    rgb: Vec<u8>,
    width: u16,
    height: u16,
    quality: u8,
}

impl PatternCam {
    #[verifier::type_invariant]
    spec fn wf(&self) -> bool {
        &&& self.width != 0 && self.height != 0
        &&& pattern_geometry(self.pattern) == rgb_geometry_of(self.width as u32, self.height as u32)
        &&& self.rgb@.len() == rgb_len(self.width as u32, self.height as u32)
    }

    /// Pixels across and down.
    pub closed spec fn frame_size(&self) -> (u16, u16) {
        (self.width, self.height)
    }

    /// The encoder's quality, `1..=100`.
    pub closed spec fn encoder_quality(&self) -> u8 {
        self.quality
    }

    /// The pixels of the frame drawn last (zeros before the first).
    pub closed spec fn pixels(&self) -> Seq<u8> {
        self.rgb@
    }

    /// The pattern source, which keeps the frame count.
    pub closed spec fn source(&self) -> TestPattern {
        self.pattern
    }

    /// Pixels across.
    pub fn width(&self) -> (w: u16)
        ensures
            w == self.frame_size().0,
    {
        self.width
    }

    /// Pixels down.
    pub fn height(&self) -> (h: u16)
        ensures
            h == self.frame_size().1,
    {
        self.height
    }

    /// The encoder's quality.
    pub fn quality(&self) -> (q: u8)
        ensures
            q == self.encoder_quality(),
    {
        self.quality
    }

    /// Bytes in one frame of pixels: the buffer's length.
    pub fn frame_len(&self) -> (n: usize)
        ensures
            n == self.pixels().len(),
            n == rgb_len(self.frame_size().0 as u32, self.frame_size().1 as u32),
    {
        proof {
            use_type_invariant(self);
        }
        self.rgb.len()
    }

    /// The camera `config` asks for: refused as `Unsupported` for a zero
    /// rate or dimension, a dimension past a `u16`, or a frame buffer past
    /// the address space.
    pub fn new(config: &cam::Config) -> (r: Result<PatternCam, Error>)
        ensures
            r is Ok <==> (config.fps != 0 && config.width != 0 && config.height != 0 && config.width
                <= u16::MAX && config.height <= u16::MAX && rgb_len(config.width, config.height) <= usize::MAX),
            r is Err ==> r == Err::<PatternCam, Error>(Error::Core(family_error(Fault::Unsupported))),
            r matches Ok(c) ==> c.frame_size() == (config.width as u16, config.height as u16)
                && c.pixels().len() == rgb_len(config.width, config.height) && c.encoder_quality()
                == (if config.quality < 1 { 1 } else if config.quality > 100 { 100 } else { config.quality }),
    {
        check_camera(config)?;
        let g = match rgb_geometry(config.width, config.height) {
            Ok(g) => g,
            Err(e) => {
                return Err(Error::Core(e));
            },
        };
        let (width, height) = pattern_size(config)?;
        let pattern = match test_pattern(g, config.fps) {
            Ok(p) => p,
            Err(e) => {
                return Err(Error::Core(e));
            },
        };
        let w64 = width as u64;
        let h64 = height as u64;
        assert(w64 * h64 <= 65535 * 65535) by (nonlinear_arith)
            requires
                w64 <= 65535,
                h64 <= 65535,
        ;
        let n: u64 = w64 * h64 * 3;
        if n > usize::MAX as u64 {
            return Err(Error::Core(family(Fault::Unsupported)));
        }
        let rgb: Vec<u8> = vec![0u8; n as usize];
        Ok(PatternCam { pattern, rgb, width, height, quality: clamp_quality(config.quality) })
    }

    /// The next frame, stamped `timestamp`: the pattern's next frame drawn
    /// into the buffer and encoded at this camera's size and quality, a JPEG
    /// whose frame header states that size. A
    /// refusal of the encoder would be a `Hardware` fault and the pattern's
    /// own refusal is passed on, but with a well-formed camera neither
    /// refuses.
    pub fn grab(&mut self, timestamp: Micros) -> (r: Result<Jpeg, Error>)
        ensures
            final(self).frame_size() == old(self).frame_size(),
            final(self).encoder_quality() == old(self).encoder_quality(),
            r is Ok,
            r matches Ok(j) ==> (j.width, j.height) == old(self).frame_size() && j.timestamp == timestamp
                && jpeg_dimensions(j.bytes@) == Some((j.width, j.height)),
            final(self).pixels() == pattern_frame(old(self).source()),
            r matches Ok(j) ==> jpeg_encodes(
                j.bytes@,
                pattern_frame(old(self).source()),
                old(self).frame_size().0,
                old(self).frame_size().1,
                old(self).encoder_quality(),
            ),
    {
        proof {
            use_type_invariant(&*self);
        }
        let n = self.rgb.len();
        assert(rgb_len(self.width as u32, self.height as u32) == n);
        assert(pattern_geometry(self.pattern) == rgb_geometry_of(self.width as u32, self.height as u32));
        if let Err(e) = pattern_grab(&mut self.pattern, &mut self.rgb) {
            return Err(Error::Core(e));
        }
        match encode_rgb(self.rgb.as_slice(), self.width, self.height, self.quality) {
            Some(bytes) => Ok(Jpeg { bytes, width: self.width, height: self.height, timestamp }),
            None => Err(Error::Core(family(Fault::Hardware))),
        }
    }
}

// -------------------------------------------------------------- microphone --

/// What the laptop microphone refuses: blocks of no length, and a tone in
/// anything but 16-bit samples.
pub fn check_microphone(config: &mic::Config, tone: bool) -> (r: Result<(), Error>)
    ensures
        r is Ok <==> (config.frame_ms != 0 && (!tone || config.format.sample is I16)),
        r is Err ==> r == Err::<(), Error>(Error::Core(family_error(Fault::Unsupported))),
{
    if config.frame_ms == 0 {
        return Err(Error::Core(family(Fault::Unsupported)));
    }
    if tone {
        if let SampleFormat::I16 = config.format.sample {
        } else {
            return Err(Error::Core(family(Fault::Unsupported)));
        }
    }
    Ok(())
}

/// Bytes per block when a microphone delivers `format` in blocks of
/// `frame_ms`: at least one.
pub fn block_len_for(format: PcmFormat, frame_ms: u32) -> (n: usize)
    requires
        (format.sample_rate_hz as nat) * ((frame_ms as nat) * 1000) <= u64::MAX,
        bytes_for_micros(format, (frame_ms as nat) * 1000) <= usize::MAX,
    ensures
        n == (if bytes_for_micros(format, (frame_ms as nat) * 1000) == 0 { 1 } else {
            bytes_for_micros(format, (frame_ms as nat) * 1000)
        }),
{
    let c = mic::Config { format, frame_ms };
    let n = c.block_bytes();
    if n == 0 {
        1
    } else {
        n
    }
}

proof fn lemma_mod_step(a: nat, j: nat, m: nat)
    requires
        m > 0,
        a % m + j < m,
    ensures
        (a + j) % m == a % m + j,
{
    vstd::arithmetic::div_mod::lemma_fundamental_div_mod(a as int, m as int);
    vstd::arithmetic::div_mod::lemma_add_mod_noop(a as int, j as int, m as int);
    vstd::arithmetic::div_mod::lemma_small_mod(j, m);
    vstd::arithmetic::div_mod::lemma_mod_bound(a as int, m as int);
    vstd::arithmetic::div_mod::lemma_small_mod((a % m + j) as nat, m);
}

proof fn lemma_mod_wrap(a: nat, t: nat, m: nat)
    requires
        m > 0,
        a % m + t == m,
    ensures
        (a + t) % m == 0,
{
    vstd::arithmetic::div_mod::lemma_fundamental_div_mod(a as int, m as int);
    let q: int = a as int / m as int;
    let r: int = a as int % m as int;
    assert(a + t == (q + 1) * m) by (nonlinear_arith)
        requires
            a == m * q + r,
            r + t == m,
    ;
    vstd::arithmetic::div_mod::lemma_mod_multiples_basic(q + 1, m as int);
}

/// A PCM WAV file's samples, looped: the format the file names, its data,
/// and where the next block starts.
pub struct WavLoop {
    /// The file's own format, which wins over the configured one.
    pub format: PcmFormat,
    /// The data chunk.
    pub data: Vec<u8>,
    /// Where the next block starts.
    pub pos: usize,
}

/// What a WAV header says: the PCM format (`None` for another codec), where
/// the data chunk starts, and how long the header says it is.
pub struct WavInfo {
    /// The PCM format, or `None` when the file holds another codec (or a
    /// sample encoding the family added after the four named here).
    pub format: Option<PcmFormat>,
    /// Offset of the data chunk's first byte.
    pub data_at: usize,
    /// Bytes the header says the data chunk holds.
    pub data_len: u32,
}

/// What the audio package's WAV parser reads from `bytes`: the header, or
/// the family error it refuses them with.
pub uninterp spec fn wav_header_of(bytes: Seq<u8>) -> Result<WavInfo, CoreError>;

/// Whether the audio package's WAV parser can walk `len` bytes without its
/// chunk arithmetic overflowing: it steps past each chunk by the chunk's
/// 32-bit size (saturating) and then adds 8, so the walk needs 2^32 + 16
/// bytes of address space beyond the file. Always so on a 64-bit target.
pub open spec fn wav_walk_fits(len: nat) -> bool {
    len + 0x1_0000_0010 <= usize::MAX
}

/// `WavHeader::parse` of the audio package: the header's codec, data offset
/// and data length, or the family error it refuses with (the error is the
/// package's own, passed on as it is). The parser's
/// position arithmetic overflows (and panics) on a chunk whose size runs
/// past the address space, so inputs without that room are left out.
#[verifier::external_body]
fn parse_wav(bytes: &[u8]) -> (r: Result<WavInfo, CoreError>)
    requires
        wav_walk_fits(bytes@.len()),
    ensures
        r == wav_header_of(bytes@),
{
    let (h, data_at) = WavHeader::parse(bytes)?;
    let mut format = None;
    if let WavCodec::Pcm(f) = h.codec {
        let sample = match f.sample {
            FamilySample::I16 => Some(SampleFormat::I16),
            FamilySample::I24In32 => Some(SampleFormat::I24In32),
            FamilySample::I32 => Some(SampleFormat::I32),
            FamilySample::F32 => Some(SampleFormat::F32),
            _ => None,
        };
        if let Some(sample) = sample {
            format = Some(PcmFormat { sample_rate_hz: f.sample_rate_hz, channels: f.channels, sample });
        }
    }
    Ok(WavInfo { format, data_at, data_len: h.data_len })
}

/// The bytes of the data chunk `info` describes, cut to what the file
/// holds.
pub open spec fn wav_data(bytes: Seq<u8>, info: WavInfo) -> Seq<u8> {
    let end = if info.data_at + info.data_len > bytes.len() { bytes.len() as int } else { info.data_at + info.data_len };
    if info.data_at >= end { Seq::empty() } else { bytes.subrange(info.data_at as int, end) }
}

/// `n` bytes of `data` read from `pos` on a loop: byte `k` is byte
/// `(pos + k) mod len` of the data.
pub open spec fn wav_block(data: Seq<u8>, pos: int, n: int) -> Seq<u8> {
    Seq::new(n as nat, |k: int| data[(pos + k) % (data.len() as int)])
}

impl WavLoop {
    /// Data to loop and a position inside it.
    pub open spec fn wf(&self) -> bool {
        self.data@.len() > 0 && self.pos < self.data@.len()
    }

    /// A WAV file to loop, from its bytes: it must parse, hold PCM, and hold
    /// some samples. `path` names the file in the refusal. A file the
    /// parser cannot walk in this address space (only possible on a 32-bit
    /// target) is refused as `Unsupported` before it is parsed.
    pub fn from_file(bytes: &[u8], path: &str) -> (r: Result<WavLoop, Error>)
        ensures
            !wav_walk_fits(bytes@.len()) ==> r == Err::<WavLoop, Error>(Error::Core(family_error(Fault::Unsupported))),
            wav_walk_fits(bytes@.len()) ==> (wav_header_of(bytes@) matches Err(e) ==> r == Err::<WavLoop, Error>(Error::Core(e))),
            wav_walk_fits(bytes@.len()) ==> (wav_header_of(bytes@) matches Ok(i) ==> {
                &&& i.format is None ==> r == Err::<WavLoop, Error>(Error::Core(family_error(Fault::Unsupported)))
                &&& i.format matches Some(fmt) ==> if wav_data(bytes@, i).len() == 0 {
                    r matches Err(Error::Io(t)) && t@ == path@ + ": no PCM data"@
                } else {
                    r matches Ok(w) && w.wf() && w.format == fmt && w.pos == 0 && w.data@ == wav_data(bytes@, i)
                }
            }),
    {
        let room: u64 = (usize::MAX as u64) - (bytes.len() as u64);
        if room < 0x1_0000_0010 {
            return Err(Error::Core(family(Fault::Unsupported)));
        }
        let info = match parse_wav(bytes) {
            Err(e) => {
                return Err(Error::Core(e));
            },
            Ok(i) => i,
        };
        let format = match info.format {
            None => {
                return Err(Error::Core(family(Fault::Unsupported)));
            },
            Some(f) => f,
        };
        let end: usize = if info.data_len as usize > bytes.len() || info.data_at > bytes.len() - info.data_len as usize {
            bytes.len()
        } else {
            info.data_at + info.data_len as usize
        };
        if info.data_at >= end {
            return Err(Error::Io(String::from_str(path).concat(": no PCM data")));
        }
        let mut data: Vec<u8> = Vec::new();
        let mut k: usize = info.data_at;
        while k < end
            invariant
                info.data_at <= k <= end <= bytes@.len(),
                data@ == bytes@.subrange(info.data_at as int, k as int),
            decreases end - k,
        {
            data.push(bytes[k]);
            k = k + 1;
            assert(data@ =~= bytes@.subrange(info.data_at as int, k as int));
        }
        Ok(WavLoop { format, data, pos: 0 })
    }

    /// The next `n` bytes of the looped data, as a block stamped
    /// `timestamp` in the file's format: byte `k` of the block is byte
    /// `(pos + k) mod len` of the data, and the next block starts where this
    /// one ended.
    pub fn read(&mut self, n: usize, timestamp: Micros) -> (block: Pcm)
        requires
            old(self).wf(),
        ensures
            final(self).wf(),
            final(self).data == old(self).data,
            final(self).format == old(self).format,
            final(self).pos == (old(self).pos + n) % (old(self).data@.len() as int),
            block.format == old(self).format,
            block.timestamp == timestamp,
            block.bytes@ == wav_block(old(self).data@, old(self).pos as int, n as int),
    {
        let len = self.data.len();
        let ghost p0 = self.pos as nat;
        let mut bytes: Vec<u8> = Vec::new();
        proof {
            vstd::arithmetic::div_mod::lemma_small_mod(p0, len as nat);
        }
        while bytes.len() < n
            invariant
                len == self.data@.len() > 0,
                self.data == old(self).data,
                self.format == old(self).format,
                p0 == old(self).pos,
                self.pos < len,
                bytes@.len() <= n,
                self.pos == (p0 + bytes@.len()) % (len as nat),
                forall|k: int| 0 <= k < bytes@.len() ==> #[trigger] bytes@[k] == self.data@[(p0 + k) % (len as int)],
            decreases n - bytes@.len(),
        {
            let room = len - self.pos;
            let want = n - bytes.len();
            let take = if want < room { want } else { room };
            let start = self.pos;
            let ghost c = bytes@.len();
            let mut j: usize = 0;
            while j < take
                invariant
                    len == self.data@.len() > 0,
                    self.data == old(self).data,
                    start == self.pos,
                    start + take <= len,
                    j <= take,
                    c + take <= n,
                    start == (p0 + c) % (len as nat),
                    bytes@.len() == c + j,
                    forall|k: int| 0 <= k < bytes@.len() ==> #[trigger] bytes@[k] == self.data@[(p0 + k) % (len as int)],
                decreases take - j,
            {
                proof {
                    lemma_mod_step(p0 + c, j as nat, len as nat);
                }
                bytes.push(self.data[start + j]);
                j = j + 1;
            }
            proof {
                if start + take < len {
                    lemma_mod_step(p0 + c, take as nat, len as nat);
                } else {
                    lemma_mod_wrap(p0 + c, take as nat, len as nat);
                }
            }
            self.pos = if start + take == len { 0 } else { start + take };
        }
        assert(bytes@ =~= wav_block(old(self).data@, old(self).pos as int, n as int));
        Pcm { format: self.format, bytes, timestamp }
    }
}

// ------------------------------------------------------------------ store --

/// The longest key the family's store seam allows, in bytes.
pub const MAX_KEY_LEN: usize = 15;

/// A character a store key may hold: an ASCII letter or digit, `_`, `.`
/// or `-`.
pub open spec fn key_char(c: char) -> bool {
    ('a' <= c && c <= 'z') || ('A' <= c && c <= 'Z') || ('0' <= c && c <= '9') || c == '_' || c == '.'
        || c == '-'
}

/// A key the store seam accepts: one to [`MAX_KEY_LEN`] key characters.
pub open spec fn key_ok(key: Seq<char>) -> bool {
    1 <= key.len() <= MAX_KEY_LEN && forall|i: int| 0 <= i < key.len() ==> key_char(#[trigger] key[i])
}

/// `check_key` of the family's store seam: a key is refused, as
/// `InvalidFormat`, unless it is one to 15 bytes, each an ASCII letter or
/// digit, `_`, `.` or `-` (so its characters are those bytes).
#[verifier::external_body]
fn family_check_key(key: &str) -> (r: Result<(), CoreError>)
    ensures
        r is Ok <==> key_ok(key@),
        r is Err ==> r->Err_0 == family_error(Fault::InvalidFormat),
{
    rusty_esp_core::hal::check_key(key)
}

/// Refuse a key the store seam does not allow, before any file is named
/// after it.
pub fn check_store_key(key: &str) -> (r: Result<(), CoreError>)
    ensures
        r is Ok <==> key_ok(key@),
        r is Err ==> r == Err::<(), CoreError>(family_error(Fault::InvalidFormat)),
{
    family_check_key(key)
}

/// What reading a stored value found.
pub enum Stored {
    /// The value's bytes.
    Found(Vec<u8>),
    /// No value under the key.
    Absent,
    /// The medium failed.
    Failed,
}

/// A store's answer to `get` once the value was looked up: its length, with
/// the value copied to the front of `out`; `None` when absent; refused when
/// `out` is too small (naming the length needed) or the medium failed.
pub fn stored_value(read: Stored, out: &mut [u8]) -> (r: Result<Option<usize>, CoreError>)
    ensures
        final(out)@.len() == old(out)@.len(),
        match read {
            Stored::Found(v) => if v@.len() > old(out)@.len() {
                r == Err::<Option<usize>, CoreError>(family_error(Fault::BufferTooSmall { needed: v@.len() as usize }))
                    && final(out)@ == old(out)@
            } else {
                &&& r == Ok::<Option<usize>, CoreError>(Some(v@.len() as usize))
                &&& final(out)@.subrange(0, v@.len() as int) == v@
                &&& final(out)@.subrange(v@.len() as int, old(out)@.len() as int) == old(out)@.subrange(
                    v@.len() as int,
                    old(out)@.len() as int,
                )
            },
            Stored::Absent => r == Ok::<Option<usize>, CoreError>(None) && final(out)@ == old(out)@,
            Stored::Failed => r == Err::<Option<usize>, CoreError>(family_error(Fault::Hardware)) && final(out)@
                == old(out)@,
        },
{
    match read {
        Stored::Absent => Ok(None),
        Stored::Failed => Err(family(Fault::Hardware)),
        Stored::Found(v) => {
            let n = v.len();
            if out.len() < n {
                return Err(family(Fault::BufferTooSmall { needed: n }));
            }
            let mut i: usize = 0;
            while i < n
                invariant
                    n == v@.len(),
                    n <= out@.len(),
                    i <= n,
                    out@.len() == old(out)@.len(),
                    forall|k: int| 0 <= k < i ==> out@[k] == v@[k],
                    forall|k: int| n <= k < out@.len() ==> out@[k] == old(out)@[k],
                decreases n - i,
            {
                out[i] = v[i];
                i = i + 1;
            }
            assert(out@.subrange(0, n as int) =~= v@);
            assert(out@.subrange(n as int, out@.len() as int) =~= old(out)@.subrange(
                n as int,
                old(out)@.len() as int,
            ));
            Ok(Some(n))
        },
    }
}

/// A store's answer to `remove` once the removal was tried (`Found`, its
/// bytes unused, when a value was there to remove): whether a value
/// existed, or a `Hardware` refusal when the medium failed.
pub fn removed(read: Stored) -> (r: Result<bool, CoreError>)
    ensures
        match read {
            Stored::Found(_) => r == Ok::<bool, CoreError>(true),
            Stored::Absent => r == Ok::<bool, CoreError>(false),
            Stored::Failed => r == Err::<bool, CoreError>(family_error(Fault::Hardware)),
        },
{
    match read {
        Stored::Found(_) => Ok(true),
        Stored::Absent => Ok(false),
        Stored::Failed => Err(family(Fault::Hardware)),
    }
}

// ------------------------------------------------------------- the record --

/// What the laptop board was asked to publish: `(hostname, instance,
/// service_type, port, txt)`.
pub type Advert = (String, String, String, u16, Vec<(String, String)>);

/// What the laptop board was asked to do, and what a test queued for it to
/// "sense": the laptop has no radio, no mDNS and no restart, so it records
/// the asks and a test reads them back.
pub struct HostLog {
    /// The last advertisement asked for.
    pub advertised: Option<Advert>,
    /// Every `max_fds` the board was asked to prepare for, oldest first.
    pub async_prepared: Vec<usize>,
    /// Readings waiting for `radar_read`, oldest first.
    pub readings: Vec<Presence>,
    /// Credentials waiting for `provision_poll`, oldest first.
    pub injected: Vec<(String, String)>,
    /// The name provisioning last advertised under.
    pub last_provisioning: Option<String>,
    /// The settings last stored.
    pub last_settings: Option<(String, String)>,
    /// Restarts asked for (wrapping).
    pub restarts: usize,
    /// Every TXT record the board was asked to re-advertise, oldest first.
    pub txt_updates: Vec<Vec<(String, String)>>,
    /// Times the board was told the running image is good (wrapping).
    pub ota_valid_calls: usize,
}

impl HostLog {
    /// Nothing asked, nothing queued.
    pub fn new() -> (log: HostLog)
        ensures
            log.advertised is None,
            log.async_prepared@.len() == 0,
            log.readings@.len() == 0,
            log.injected@.len() == 0,
            log.last_provisioning is None,
            log.last_settings is None,
            log.restarts == 0,
            log.txt_updates@.len() == 0,
            log.ota_valid_calls == 0,
    {
        HostLog {
            advertised: None,
            async_prepared: Vec::new(),
            readings: Vec::new(),
            injected: Vec::new(),
            last_provisioning: None,
            last_settings: None,
            restarts: 0,
            txt_updates: Vec::new(),
            ota_valid_calls: 0,
        }
    }
}

/// An equal copy of a list of string pairs.
fn copy_pairs(v: &Vec<(String, String)>) -> (c: Vec<(String, String)>)
    ensures
        c@ == v@,
{
    let mut c: Vec<(String, String)> = Vec::new();
    let mut i: usize = 0;
    while i < v.len()
        invariant
            i <= v@.len(),
            c@ == v@.subrange(0, i as int),
        decreases v@.len() - i,
    {
        c.push((v[i].0.clone(), v[i].1.clone()));
        i = i + 1;
        assert(c@ =~= v@.subrange(0, i as int));
    }
    assert(v@.subrange(0, v@.len() as int) =~= v@);
    c
}

/// What the laptop board was last asked to publish, if anything.
pub fn advertised(log: &HostLog) -> (a: Option<Advert>)
    ensures
        match (a, log.advertised) {
            (Some(x), Some(y)) => x.0 == y.0 && x.1 == y.1 && x.2 == y.2 && x.3 == y.3 && x.4@ == y.4@,
            (None, None) => true,
            _ => false,
        },
{
    match &log.advertised {
        Some(a) => Some((a.0.clone(), a.1.clone(), a.2.clone(), a.3, copy_pairs(&a.4))),
        None => None,
    }
}

/// What the laptop board was asked to prepare for, oldest first.
pub fn async_prepared(log: &HostLog) -> (v: Vec<usize>)
    ensures
        v@ == log.async_prepared@,
{
    slice_to_vec(log.async_prepared.as_slice())
}

/// Act as the sensor: queue this reading; the sketch's next `radar::read`
/// (once begun) returns it.
pub fn inject_presence(log: &mut HostLog, reading: Presence)
    ensures
        *final(log) == (HostLog { readings: final(log).readings, ..*old(log) }),
        final(log).readings@ == old(log).readings@.push(reading),
{
    log.readings.push(reading);
}

/// Act as the phone: queue these credentials; the sketch's next
/// `provision::poll` (once begun) returns them.
pub fn inject_credentials(log: &mut HostLog, ssid: &str, psk: &str)
    ensures
        *final(log) == (HostLog { injected: final(log).injected, ..*old(log) }),
        final(log).injected@.len() == old(log).injected@.len() + 1,
        final(log).injected@.drop_last() == old(log).injected@,
        final(log).injected@.last().0@ == ssid@ && final(log).injected@.last().1@ == psk@,
{
    log.injected.push((String::from_str(ssid), String::from_str(psk)));
    assert(final(log).injected@.drop_last() =~= old(log).injected@);
}

/// The name the laptop board last advertised provisioning under.
pub fn provisioning_name(log: &HostLog) -> (n: Option<String>)
    ensures
        n == log.last_provisioning,
{
    match &log.last_provisioning {
        Some(n) => Some(n.clone()),
        None => None,
    }
}

/// How many restarts the laptop board was asked for.
pub fn restarts(log: &HostLog) -> (n: usize)
    ensures
        n == log.restarts,
{
    log.restarts
}

/// The settings the laptop board last stored.
pub fn stored_settings(log: &HostLog) -> (s: Option<(String, String)>)
    ensures
        s == log.last_settings,
{
    match &log.last_settings {
        Some(s) => Some((s.0.clone(), s.1.clone())),
        None => None,
    }
}

/// The laptop board asked to advertise: recorded, and answered `Ok`.
pub fn record_advert(
    log: &mut HostLog,
    hostname: &str,
    instance: &str,
    service_type: &str,
    port: u16,
    txt: &[(String, String)],
)
    ensures
        *final(log) == (HostLog { advertised: final(log).advertised, ..*old(log) }),
        final(log).advertised matches Some(a) && (a.0@ == hostname@ && a.1@ == instance@ && a.2@
            == service_type@ && a.3 == port && a.4@ == txt@),
{
    let mut pairs: Vec<(String, String)> = Vec::new();
    let mut i: usize = 0;
    while i < txt.len()
        invariant
            i <= txt@.len(),
            pairs@ == txt@.subrange(0, i as int),
        decreases txt@.len() - i,
    {
        pairs.push((txt[i].0.clone(), txt[i].1.clone()));
        i = i + 1;
        assert(pairs@ =~= txt@.subrange(0, i as int));
    }
    assert(txt@.subrange(0, txt@.len() as int) =~= txt@);
    log.advertised = Some(
        (String::from_str(hostname), String::from_str(instance), String::from_str(service_type), port, pairs),
    );
}

/// The laptop board asked to re-advertise with `txt`: recorded, newest
/// last.
pub fn record_advert_txt(log: &mut HostLog, txt: &[(String, String)])
    ensures
        *final(log) == (HostLog { txt_updates: final(log).txt_updates, ..*old(log) }),
        final(log).txt_updates@.len() == old(log).txt_updates@.len() + 1,
        final(log).txt_updates@.drop_last() == old(log).txt_updates@,
        final(log).txt_updates@.last()@ == txt@,
{
    let mut pairs: Vec<(String, String)> = Vec::new();
    let mut i: usize = 0;
    while i < txt.len()
        invariant
            i <= txt@.len(),
            pairs@ == txt@.subrange(0, i as int),
        decreases txt@.len() - i,
    {
        pairs.push((txt[i].0.clone(), txt[i].1.clone()));
        i = i + 1;
        assert(pairs@ =~= txt@.subrange(0, i as int));
    }
    assert(txt@.subrange(0, txt@.len() as int) =~= txt@);
    log.txt_updates.push(pairs);
    assert(log.txt_updates@.drop_last() =~= old(log).txt_updates@);
}

/// Every TXT record the laptop board was asked to re-advertise, oldest
/// first.
pub fn advertised_updates(log: &HostLog) -> (u: Vec<Vec<(String, String)>>)
    ensures
        u@.len() == log.txt_updates@.len(),
        forall|k: int| 0 <= k < u@.len() ==> (#[trigger] u@[k])@ == log.txt_updates@[k]@,
{
    let mut u: Vec<Vec<(String, String)>> = Vec::new();
    let mut i: usize = 0;
    while i < log.txt_updates.len()
        invariant
            i <= log.txt_updates@.len(),
            u@.len() == i,
            forall|k: int| 0 <= k < i ==> (#[trigger] u@[k])@ == log.txt_updates@[k]@,
        decreases log.txt_updates@.len() - i,
    {
        u.push(copy_pairs(&log.txt_updates[i]));
        i = i + 1;
    }
    u
}

/// The laptop board told the running image is good: counted.
pub fn record_ota_valid(log: &mut HostLog)
    ensures
        *final(log) == (HostLog { ota_valid_calls: final(log).ota_valid_calls, ..*old(log) }),
        final(log).ota_valid_calls == (if old(log).ota_valid_calls == usize::MAX { 0 } else { (
        old(log).ota_valid_calls + 1) as usize }),
{
    log.ota_valid_calls = if log.ota_valid_calls == usize::MAX { 0 } else { log.ota_valid_calls + 1 };
}

/// How many times the laptop board was told the running image is good.
pub fn ota_running_valid_calls(log: &HostLog) -> (n: usize)
    ensures
        n == log.ota_valid_calls,
{
    log.ota_valid_calls
}

/// The laptop board asked to prepare for an async runtime: recorded.
pub fn record_prepare(log: &mut HostLog, max_fds: usize)
    ensures
        *final(log) == (HostLog { async_prepared: final(log).async_prepared, ..*old(log) }),
        final(log).async_prepared@ == old(log).async_prepared@.push(max_fds),
{
    log.async_prepared.push(max_fds);
}

/// The laptop board started provisioning as `name`: recorded.
pub fn record_provisioning(log: &mut HostLog, name: &str)
    ensures
        *final(log) == (HostLog { last_provisioning: final(log).last_provisioning, ..*old(log) }),
        final(log).last_provisioning matches Some(n) && n@ == name@,
{
    log.last_provisioning = Some(String::from_str(name));
}

/// The laptop board asked to restart: it cannot and must not, so it counts
/// the ask.
pub fn record_restart(log: &mut HostLog)
    ensures
        *final(log) == (HostLog { restarts: final(log).restarts, ..*old(log) }),
        final(log).restarts == (if old(log).restarts == usize::MAX { 0 } else { (old(log).restarts + 1) as usize }),
{
    log.restarts = if log.restarts == usize::MAX { 0 } else { log.restarts + 1 };
}

/// The laptop board keeps settings: recorded.
pub fn record_settings(log: &mut HostLog, ssid: &str, psk: &str)
    ensures
        *final(log) == (HostLog { last_settings: final(log).last_settings, ..*old(log) }),
        final(log).last_settings matches Some(s) && (s.0@ == ssid@ && s.1@ == psk@),
{
    log.last_settings = Some((String::from_str(ssid), String::from_str(psk)));
}

/// What `provision_poll` answers on the laptop: the oldest queued
/// credentials, once each, while provisioning is `active`; nothing before.
pub fn take_credentials(log: &mut HostLog, active: bool) -> (c: Option<(String, String)>)
    ensures
        !active || old(log).injected@.len() == 0 ==> c is None && *final(log) == *old(log),
        active && old(log).injected@.len() > 0 ==> c == Some(old(log).injected@[0])
            && final(log).injected@ == old(log).injected@.drop_first()
            && *final(log) == (HostLog { injected: final(log).injected, ..*old(log) }),
{
    if !active || log.injected.len() == 0 {
        return None;
    }
    let first = log.injected.remove(0);
    assert(final(log).injected@ =~= old(log).injected@.drop_first());
    Some(first)
}

/// What `radar_read` answers on the laptop: the oldest queued reading, once
/// each, while the sensor is begun; nothing before.
pub fn take_reading(log: &mut HostLog, begun: bool) -> (r: Option<Presence>)
    ensures
        !begun || old(log).readings@.len() == 0 ==> r is None && *final(log) == *old(log),
        begun && old(log).readings@.len() > 0 ==> r == Some(old(log).readings@[0])
            && final(log).readings@ == old(log).readings@.drop_first()
            && *final(log) == (HostLog { readings: final(log).readings, ..*old(log) }),
{
    if !begun || log.readings.len() == 0 {
        return None;
    }
    let first = log.readings.remove(0);
    assert(final(log).readings@ =~= old(log).readings@.drop_first());
    Some(first)
}

} // verus!
