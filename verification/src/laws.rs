//! What holds of the facade across calls and for every input, proved from
//! the same spec functions the verbs' contracts use.

use vstd::prelude::*;

use crate::host::{WavInfo, wav_block, wav_data};
use crate::mesh::{
    Declared, Slot, State, Subscriber, Which, after_adoption, channel_in, channel_of, declares_ota,
    hostname_of, label_char, manifest_with_ota, micros_of_millis, next_u32, segment_start, stats_of,
    takes, taken, trim_end_dashes, trim_start_dashes,
};
use crate::identity::{self, holds_store, store_handed_over};
use crate::provision::credentials_text;

verus! {

/// A character a DNS label may hold as a resolver expects it: a lower-case
/// letter, a digit, or a hyphen.
pub open spec fn dns_char(c: char) -> bool {
    ('a' <= c && c <= 'z') || ('0' <= c && c <= '9') || c == '-'
}

/// A DNS label: one to 63 characters, each a lower-case letter, a digit or
/// a hyphen, neither starting nor ending with a hyphen.
pub open spec fn is_dns_label(h: Seq<char>) -> bool {
    &&& 1 <= h.len() <= 63
    &&& forall|i: int| 0 <= i < h.len() ==> dns_char(#[trigger] h[i])
    &&& h[0] != '-'
    &&& h.last() != '-'
}

proof fn lemma_label_char(c: char)
    ensures
        dns_char(label_char(c)),
{
    if 'A' <= c && c <= 'Z' {
        assert(65 <= (c as u32) <= 90);
        assert(((c as u32) + 32) as char as u32 == (c as u32) + 32);
    }
}

proof fn lemma_trim_start_suffix(s: Seq<char>)
    ensures
        exists|k: int| 0 <= k <= s.len() && trim_start_dashes(s) == #[trigger] s.subrange(k, s.len() as int),
        trim_start_dashes(s).len() > 0 ==> trim_start_dashes(s)[0] != '-',
    decreases s.len(),
{
    if s.len() > 0 && s[0] == '-' {
        lemma_trim_start_suffix(s.drop_first());
        let k = choose|k: int|
            0 <= k <= s.drop_first().len() && trim_start_dashes(s.drop_first()) == #[trigger] s.drop_first().subrange(
                k,
                s.drop_first().len() as int,
            );
        assert(s.drop_first().subrange(k, s.drop_first().len() as int) =~= s.subrange(k + 1, s.len() as int));
    } else {
        assert(s.subrange(0, s.len() as int) =~= s);
    }
}

proof fn lemma_trim_end_prefix(s: Seq<char>)
    ensures
        exists|k: int| 0 <= k <= s.len() && trim_end_dashes(s) == #[trigger] s.subrange(0, k),
        trim_end_dashes(s).len() > 0 ==> trim_end_dashes(s).last() != '-',
    decreases s.len(),
{
    if s.len() > 0 && s.last() == '-' {
        lemma_trim_end_prefix(s.drop_last());
        let k = choose|k: int|
            0 <= k <= s.drop_last().len() && trim_end_dashes(s.drop_last()) == #[trigger] s.drop_last().subrange(0, k);
        assert(s.drop_last().subrange(0, k) =~= s.subrange(0, k));
    } else {
        assert(s.subrange(0, s.len() as int) =~= s);
    }
}

/// Every model gives a hostname a resolver keeps: one DNS label of at most
/// 63 lower-case letters, digits and hyphens, neither starting nor ending
/// with a hyphen.
pub proof fn law_hostname_is_a_dns_label(model: Seq<char>)
    ensures
        is_dns_label(hostname_of(model)),
{
    let start = segment_start(model, model.len() as int);
    assert(0 <= start <= model.len()) by {
        lemma_segment_start_bounds(model, model.len() as int);
    }
    let tail = model.subrange(start, model.len() as int);
    let mapped = tail.map_values(|c: char| label_char(c));
    let cut = if mapped.len() > 63 { mapped.take(63) } else { mapped };
    assert forall|i: int| 0 <= i < cut.len() implies dns_char(#[trigger] cut[i]) by {
        lemma_label_char(tail[i]);
    }
    let t1 = trim_start_dashes(cut);
    lemma_trim_start_suffix(cut);
    let k1 = choose|k: int| 0 <= k <= cut.len() && t1 == #[trigger] cut.subrange(k, cut.len() as int);
    assert forall|i: int| 0 <= i < t1.len() implies dns_char(#[trigger] t1[i]) by {
        assert(t1[i] == cut[k1 + i]);
    }
    let t2 = trim_end_dashes(t1);
    lemma_trim_end_prefix(t1);
    let k2 = choose|k: int| 0 <= k <= t1.len() && t2 == #[trigger] t1.subrange(0, k);
    assert forall|i: int| 0 <= i < t2.len() implies dns_char(#[trigger] t2[i]) by {
        assert(t2[i] == t1[i]);
    }
    if t2.len() > 0 {
        assert(t2[0] == t1[0]);
    } else {
        reveal_strlit("janus");
    }
}

proof fn lemma_segment_start_bounds(s: Seq<char>, k: int)
    requires
        0 <= k <= s.len(),
    ensures
        0 <= segment_start(s, k) <= k,
    decreases k,
{
    if k > 0 && s[k - 1] != '/' {
        lemma_segment_start_bounds(s, k - 1);
    }
}

/// A subscriber never takes the same push twice: once it took the newest
/// frame, asking again before another push waits.
pub proof fn law_no_frame_twice(slot: Slot, sub: Subscriber)
    requires
        takes(slot, sub),
    ensures
        !takes(slot, taken(slot, sub)),
{
}

/// A subscriber that joins a channel takes nothing that was pushed before
/// it joined: placed at the channel's push count, it waits for the next
/// push.
pub proof fn law_no_frame_from_before_joining(slot: Slot, which: crate::mesh::Which)
    ensures
        !takes(slot, crate::mesh::Subscriber { which, seen: slot.seq, out_seq: 0 }),
{
}

/// Where a looped directory of `len` frames stands after `k` grabs from
/// position `next`, one grab at a time.
pub open spec fn dir_after(next: int, k: nat, len: int) -> int
    decreases k,
{
    if k == 0 {
        next
    } else {
        (dir_after(next, (k - 1) as nat, len) + 1) % len
    }
}

/// The `k`-th grab from a directory of `len` frames, starting at `next`,
/// hands out frame `(next + k) mod len`: the directory plays in order and
/// loops.
pub proof fn law_directory_loops(next: int, k: nat, len: int)
    requires
        len > 0,
        0 <= next < len,
    ensures
        dir_after(next, k, len) == (next + k) % len,
    decreases k,
{
    if k == 0 {
        vstd::arithmetic::div_mod::lemma_small_mod(next as nat, len as nat);
    } else {
        law_directory_loops(next, (k - 1) as nat, len);
        vstd::arithmetic::div_mod::lemma_add_mod_noop(next + k - 1, 1, len);
        vstd::arithmetic::div_mod::lemma_mod_twice(next + k - 1, len);
        if len > 1 {
            vstd::arithmetic::div_mod::lemma_small_mod(1, len as nat);
        } else {
            assert(((next + k - 1) % len + 1) % len == 0);
            assert((next + k) % len == 0);
        }
    }
}

/// A subscriber that has taken everything gets the next push: after a push
/// (the push count moves on, a frame is there, the channel stays open), it
/// takes a frame.
pub proof fn law_push_reaches_subscriber(before: Slot, after: Slot, sub: Subscriber)
    requires
        sub.seen == before.seq,
        after.seq == next_u32(before.seq),
        after.frame is Some,
        !after.closed,
    ensures
        takes(after, sub),
{
}

/// Consecutive packets a subscriber takes carry consecutive sequence
/// numbers (wrapping), so a gap is loss.
pub proof fn law_sequence_numbers_follow(s1: Slot, s2: Slot, sub: Subscriber)
    requires
        takes(s1, sub),
        takes(s2, taken(s1, sub)),
    ensures
        taken(s2, taken(s1, sub)).out_seq == next_u32(next_u32(sub.out_seq)),
        taken(s1, sub).out_seq == next_u32(sub.out_seq),
{
}

/// Only a change of adoption queues a re-advertisement: seeing the same
/// adoption again leaves the queue as the first look left it.
pub proof fn law_same_adoption_queues_nothing(
    o: State,
    adopted: bool,
    t1: Vec<(String, String)>,
    t2: Vec<(String, String)>,
)
    ensures
        after_adoption(after_adoption(o, adopted, t1), adopted, t2).readvertise == after_adoption(
            o,
            adopted,
            t1,
        ).readvertise,
        adopted != o.adopted_seen ==> after_adoption(o, adopted, t1).readvertise == Some(t1),
{
}

/// A looped WAV file plays on without a seam: a block of `n` bytes, then a
/// block of `m` from where it ended, is the block of `n + m` from the start.
pub proof fn law_wav_blocks_continue(data: Seq<u8>, pos: int, n: int, m: int)
    requires
        data.len() > 0,
        0 <= pos < data.len(),
        n >= 0,
        m >= 0,
    ensures
        wav_block(data, pos, n) + wav_block(data, (pos + n) % (data.len() as int), m) == wav_block(data, pos, n + m),
{
    let len = data.len() as int;
    let a = wav_block(data, pos, n);
    let b = wav_block(data, (pos + n) % len, m);
    let c = wav_block(data, pos, n + m);
    assert forall|k: int| 0 <= k < n + m implies (a + b)[k] == c[k] by {
        if k >= n {
            let j = k - n;
            vstd::arithmetic::div_mod::lemma_add_mod_noop(pos + n, j, len);
            vstd::arithmetic::div_mod::lemma_mod_twice(pos + n, len);
            vstd::arithmetic::div_mod::lemma_add_mod_noop((pos + n) % len, j, len);
            assert(((pos + n) % len + j) % len == (pos + k) % len);
        }
    }
    assert(a + b =~= c);
}

/// A node with an update slot always promises `ota`, exactly once: the
/// declarations it is bound with declare it, and binding them again adds
/// nothing. Without a slot the declarations are the sketch's own.
pub proof fn law_ota_is_declared_once(d: Seq<Declared>, ota_armed: bool)
    ensures
        ota_armed ==> declares_ota(manifest_with_ota(d, ota_armed)),
        manifest_with_ota(manifest_with_ota(d, ota_armed), ota_armed) == manifest_with_ota(d, ota_armed),
        !ota_armed ==> manifest_with_ota(d, ota_armed) == d,
{
    if ota_armed && !declares_ota(d) {
        let e = manifest_with_ota(d, ota_armed);
        assert(e[d.len() as int] == crate::mesh::ota_declared());
        assert(declares_ota(e));
    }
}

/// The device's store is handed to the mesh once: after a hand-over there
/// is nothing left to hand over, and handing over again changes nothing —
/// while the identity itself (its DID and maker) stays as it was.
pub proof fn law_store_handed_over_once(i: Option<identity::State>)
    ensures
        !holds_store(store_handed_over(i)),
        store_handed_over(store_handed_over(i)) == store_handed_over(i),
        store_handed_over(i) is Some <==> i is Some,
        i matches Some(s) ==> (store_handed_over(i) matches Some(t) && t.did == s.did && t.maker == s.maker),
{
}

/// A credential prints the same whatever its passphrase, as long as the
/// passphrase's length is the same: the passphrase itself never prints.
pub proof fn law_passphrase_never_prints(ssid: Seq<char>, psk1: Seq<char>, psk2: Seq<char>)
    requires
        vstd::utf8::encode_utf8(psk1).len() == vstd::utf8::encode_utf8(psk2).len(),
    ensures
        credentials_text(ssid, (vstd::utf8::encode_utf8(psk1).len() as usize) as nat) == credentials_text(
            ssid,
            (vstd::utf8::encode_utf8(psk2).len() as usize) as nat,
        ),
{
}

proof fn lemma_segment_start_after_slash(model: Seq<char>, p: int, k: int)
    requires
        0 <= p <= k <= model.len(),
        p == 0 || model[p - 1] == '/',
        forall|j: int| p <= j < model.len() ==> model[j] != '/',
    ensures
        segment_start(model, k) == p,
    decreases k,
{
    if k > p {
        lemma_segment_start_after_slash(model, p, k - 1);
    }
}

/// A model whose last `/` segment is already a DNS label (lower-case
/// letters, digits and hyphens, at most 63, no hyphen at either end) is
/// published under exactly that segment: letters, digits and hyphens are
/// kept as they are.
pub proof fn law_a_label_segment_is_its_own_hostname(prefix: Seq<char>, segment: Seq<char>)
    requires
        prefix.len() == 0 || prefix.last() == '/',
        forall|j: int| 0 <= j < segment.len() ==> segment[j] != '/',
        is_dns_label(segment),
    ensures
        hostname_of(prefix + segment) == segment,
{
    let model = prefix + segment;
    let p = prefix.len() as int;
    lemma_segment_start_after_slash(model, p, model.len() as int);
    let tail = model.subrange(p, model.len() as int);
    assert(tail =~= segment);
    let mapped = tail.map_values(|c: char| label_char(c));
    assert forall|j: int| 0 <= j < segment.len() implies mapped[j] == segment[j] by {
        assert(dns_char(segment[j]));
    }
    assert(mapped =~= segment);
    assert(trim_start_dashes(segment) == segment);
    assert(trim_end_dashes(segment) == segment);
}

/// A subscriber of a codec's channel hears the next push of that codec:
/// one that asked for `pcm ` before a PCM block `b` was pushed takes a
/// packet whose bytes are `b` (and likewise `mjpg` and frames, `tlm ` and
/// readings). `o` is the node before the push, `s` after it, as
/// `push_media`, `push_media_pcm` and `push_telemetry` leave it.
pub proof fn law_each_codec_hears_its_own_pushes(o: State, s: State, which: Which, b: Seq<u8>)
    requires
        (match which {
            Which::Video => s == (State { frames: s.frames, video: s.video, ..o }),
            Which::Audio => s == (State { blocks: s.blocks, audio: s.audio, ..o }),
            Which::Telemetry => s == (State { readings: s.readings, telemetry: s.telemetry, ..o }),
        }),
        (match which {
            Which::Video => s.video.seq == next_u32(o.video.seq) && !s.video.closed && (s.video.frame matches Some(
                fr,
            ) && fr.1@ == b),
            Which::Audio => s.audio.seq == next_u32(o.audio.seq) && !s.audio.closed && (s.audio.frame matches Some(
                fr,
            ) && fr.1@ == b),
            Which::Telemetry => s.telemetry.seq == next_u32(o.telemetry.seq) && !s.telemetry.closed && (
            s.telemetry.frame matches Some(fr) && fr.1@ == b),
        }),
    ensures
        channel_of(seq![0x70u8, 0x63u8, 0x6du8, 0x20u8], o.frames, o.blocks, o.readings) == Some(Which::Audio),
        channel_of(seq![0x6du8, 0x6au8, 0x70u8, 0x67u8], o.frames, o.blocks, o.readings) == Some(Which::Video),
        channel_of(seq![0x74u8, 0x6cu8, 0x6du8, 0x20u8], o.frames, o.blocks, o.readings) == Some(
            Which::Telemetry,
        ),
        ({
            let sub = Subscriber { which, seen: channel_in(o, which).seq, out_seq: 0 };
            takes(channel_in(s, which), sub) && channel_in(s, which).frame->Some_0.1@ == b
        }),
{
    assert(crate::mesh::CODEC_MJPEG@ =~= seq![0x6du8, 0x6au8, 0x70u8, 0x67u8]);
    assert(crate::mesh::CODEC_PCM@ =~= seq![0x70u8, 0x63u8, 0x6du8, 0x20u8]);
    assert(crate::mesh::CODEC_TELEMETRY@ =~= seq![0x74u8, 0x6cu8, 0x6du8, 0x20u8]);
    assert(crate::mesh::CODEC_MJPEG@[0] != crate::mesh::CODEC_PCM@[0]);
    assert(crate::mesh::CODEC_MJPEG@[0] != crate::mesh::CODEC_TELEMETRY@[0]);
    assert(crate::mesh::CODEC_PCM@[0] != crate::mesh::CODEC_TELEMETRY@[0]);
}

/// The counters count the pushes: a PCM push adds one block and nothing
/// else, a telemetry push one reading, a frame push one frame (below the
/// wrap). `o` is the node before the push, `s` after it.
pub proof fn law_counters_count_pushes(o: State, s: State, which: Which)
    requires
        (match which {
            Which::Video => s == (State { frames: next_u32(o.frames), video: s.video, ..o }) && o.frames < u32::MAX,
            Which::Audio => s == (State { blocks: next_u32(o.blocks), audio: s.audio, ..o }) && o.blocks < u32::MAX,
            Which::Telemetry => s == (State { readings: next_u32(o.readings), telemetry: s.telemetry, ..o })
                && o.readings < u32::MAX,
        }),
    ensures
        stats_of(s).frames == stats_of(o).frames + (if which is Video { 1int } else { 0int }),
        stats_of(s).blocks == stats_of(o).blocks + (if which is Audio { 1int } else { 0int }),
        stats_of(s).readings == stats_of(o).readings + (if which is Telemetry { 1int } else { 0int }),
        stats_of(s).subscribers == stats_of(o).subscribers,
{
}

/// A node that just came up has counted nothing.
pub proof fn law_counters_start_at_zero(s: State)
    requires
        s.frames == 0 && s.blocks == 0 && s.readings == 0,
    ensures
        stats_of(s).frames == 0 && stats_of(s).blocks == 0 && stats_of(s).readings == 0,
{
}

/// A looped WAV file plays exactly the data chunk its header declares,
/// clipped to the file: byte `k` is the file's byte `data_at + k`, and there
/// are `data_len` of them, or as many as the file holds after `data_at`.
/// Nothing after the chunk (a `LIST` chunk, say) is ever played.
pub proof fn law_only_the_data_chunk_plays(bytes: Seq<u8>, info: WavInfo)
    ensures
        info.data_at >= bytes.len() ==> wav_data(bytes, info).len() == 0,
        info.data_at < bytes.len() ==> wav_data(bytes, info).len() == (if info.data_len <= bytes.len()
            - info.data_at { info.data_len as int } else { bytes.len() - info.data_at }),
        forall|k: int| 0 <= k < wav_data(bytes, info).len() ==> #[trigger] wav_data(bytes, info)[k] == bytes[info.data_at + k],
        wav_data(bytes, info).len() <= info.data_len,
{
}

/// A reading is stamped with the board's milliseconds times a thousand
/// whenever that fits a `u64`, and with `u64::MAX` only when it does not.
pub proof fn law_telemetry_stamp_is_milliseconds_times_1000(ms: u64)
    ensures
        ms * 1000 <= u64::MAX ==> micros_of_millis(ms) == ms * 1000,
        ms * 1000 > u64::MAX ==> micros_of_millis(ms) == u64::MAX,
{
}

} // verus!
