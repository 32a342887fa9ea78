//! Decoding a nibblized track gives its sectors back.
//!
//! The decoder scans for data prologues and takes a data field only when
//! none of its 343 nibbles is $DE. The 6-and-2 table holds $DE, so a sector
//! whose encoding contains it is refused; for every other image a track
//! decodes to exactly the sectors it was made from.

use vstd::prelude::*;
use super::codec::{
    NIBBLE_TRACK_SIZE, DSK_SIZE, scan_track, data_prologue_at, data_field_complete, sector_nibbles,
    gap_len, four_and_four, six_and_two, decode_six_and_two,
    lemma_six_and_two_roundtrip, write_sector_bytes, sector_offset, sector_data, dos33_logical,
    track_stream, track_nibbles, lemma_sector_nibbles_len, lemma_track_stream_len,
};

verus! {

/// Whether the 6-and-2 encoding of `data` is free of $DE, the byte that
/// ends a data field for the decoder.
pub open spec fn encodes_without_de(data: Seq<u8>) -> bool {
    forall|k: int| 0 <= k < 343 ==> #[trigger] six_and_two(data)[k] != 0xDE
}

/// Whether every sector of track `track` of `raw` encodes without $DE.
pub open spec fn track_decodable(raw: Seq<u8>, track: int) -> bool {
    forall|l: int| 0 <= l < 16 ==> #[trigger] encodes_without_de(sector_data(raw, track, l))
}

/// `base` with the bytes of track `track` taken from `raw`.
pub open spec fn with_track(base: Seq<u8>, raw: Seq<u8>, track: int) -> Seq<u8> {
    Seq::new(base.len(), |i: int| if track * 4096 <= i < track * 4096 + 4096 { raw[i] } else { base[i] })
}

/// Scanning across bytes where no data field starts changes nothing.
proof fn lemma_scan_skip(nib: Seq<u8>, p: int, q: int, phys: int, raw: Seq<u8>, track: int)
    requires
        0 <= p <= q <= NIBBLE_TRACK_SIZE,
        forall|i: int| p <= i < q ==> !#[trigger] data_prologue_at(nib, i),
    ensures
        scan_track(nib, p, phys, raw, track) == scan_track(nib, q, phys, raw, track),
    decreases q - p,
{
    if p < q {
        lemma_scan_skip(nib, p + 1, q, phys, raw, track);
    }
}

/// A 4-and-4 byte is never $D5: bits 1, 3, 5 and 7 are always set.
proof fn lemma_four_and_four_not_d5(v: u8)
    ensures
        four_and_four(v)[0] != 0xD5,
        four_and_four(v)[1] != 0xD5,
{
    assert(((v >> 1) | 0xAA) != 0xD5 && (v | 0xAA) != 0xD5) by (bit_vector);
}

/// Where the bytes of a sector's stream lie: $D5 occurs before the data
/// field only as the first byte of the address prologue D5 AA 96, the
/// data prologue D5 AA AD is followed by the 6-and-2 field, and the
/// epilogue and trailing sync byte hold no $D5.
proof fn lemma_sector_layout(track: u8, n: u8, data: Seq<u8>)
    requires
        data.len() == 256,
    ensures
        ({
            let s = sector_nibbles(track, n, data);
            let g = gap_len(track, n);
            &&& s.len() == g + 369
            &&& forall|i: int| 0 <= i < g + 19 && i != g ==> #[trigger] s[i] != 0xD5
            &&& s[g + 2] == 0x96
            &&& s[g + 19] == 0xD5 && s[g + 20] == 0xAA && s[g + 21] == 0xAD
            &&& forall|k: int| 0 <= k < 343 ==> #[trigger] s[g + 22 + k] == six_and_two(data)[k]
            &&& s[g + 366] != 0xD5 && s[g + 367] != 0xD5 && s[g + 368] != 0xD5
        }),
{
    let s = sector_nibbles(track, n, data);
    let g = gap_len(track, n);
    lemma_sector_nibbles_len(track, n, data);
    lemma_four_and_four_not_d5(0xFE);
    lemma_four_and_four_not_d5(track);
    lemma_four_and_four_not_d5(n);
    lemma_four_and_four_not_d5(0xFEu8 ^ track ^ n);
    assert forall|i: int| 0 <= i < g + 19 && i != g implies #[trigger] s[i] != 0xD5 by {
        if g + 3 <= i < g + 11 {
        }
    }
}

/// Taking a data field at `dp` whose 343 nibbles are `enc`, free of $DE,
/// decoding to `data`: the scan stores it and goes on after the field's
/// first epilogue byte.
proof fn lemma_scan_data_field(nib: Seq<u8>, dp: int, enc: Seq<u8>, n: int, data: Seq<u8>, raw: Seq<u8>, track: int)
    requires
        nib.len() == NIBBLE_TRACK_SIZE,
        0 <= n < 16,
        0 <= dp,
        dp + 3 + 343 <= NIBBLE_TRACK_SIZE,
        data_prologue_at(nib, dp),
        enc.len() == 343,
        forall|k: int| 0 <= k < 343 ==> #[trigger] enc[k] != 0xDE,
        decode_six_and_two(enc) == Some(data),
        nib.subrange(dp + 3, dp + 3 + 343) == enc,
    ensures
        scan_track(nib, dp, n, raw, track) == scan_track(
            nib,
            dp + 3 + 344,
            n + 1,
            write_sector_bytes(raw, sector_offset(track, dos33_logical(n)), data),
            track,
        ),
{
    let start = dp + 3;
    assert(data_field_complete(nib, start)) by {
        assert forall|k: int| start <= k < start + 343 implies nib[k] != 0xDE by {
            assert(nib.subrange(start, start + 343)[k - start] == enc[k - start]);
        }
    }
}

/// Scanning a stream `s` laid out like a sector's (see
/// `lemma_sector_layout`) at `off` in the track, with data field `enc`.
#[verifier::rlimit(40)]
proof fn lemma_scan_stream(nib: Seq<u8>, off: int, s: Seq<u8>, g: int, enc: Seq<u8>, n: int, data: Seq<u8>, raw: Seq<u8>, track: int)
    requires
        nib.len() == NIBBLE_TRACK_SIZE,
        0 <= n < 16,
        0 <= g,
        0 <= off,
        off + g + 369 <= NIBBLE_TRACK_SIZE,
        s.len() == g + 369,
        forall|i: int| 0 <= i < g + 19 && i != g ==> #[trigger] s[i] != 0xD5,
        s[g + 2] == 0x96,
        s[g + 19] == 0xD5 && s[g + 20] == 0xAA && s[g + 21] == 0xAD,
        enc.len() == 343,
        forall|k: int| 0 <= k < 343 ==> #[trigger] s[g + 22 + k] == enc[k],
        s[g + 366] != 0xD5 && s[g + 367] != 0xD5 && s[g + 368] != 0xD5,
        forall|k: int| 0 <= k < 343 ==> #[trigger] enc[k] != 0xDE,
        decode_six_and_two(enc) == Some(data),
        forall|i: int| 0 <= i < s.len() ==> #[trigger] nib[off + i] == s[i],
    ensures
        scan_track(nib, off, n, raw, track) == scan_track(
            nib,
            off + g + 369,
            n + 1,
            write_sector_bytes(raw, sector_offset(track, dos33_logical(n)), data),
            track,
        ),
{
    // No data field starts before the data prologue.
    let dp = off + g + 19;
    assert forall|i: int| off <= i < dp implies !#[trigger] data_prologue_at(nib, i) by {
        let j = i - off;
        assert(nib[off + j] == s[j]);
        if j == g {
            let j2 = j + 2;
            assert(nib[off + j2] == s[j2]);
        }
    }
    lemma_scan_skip(nib, off, dp, n, raw, track);
    // The data field.
    let start = dp + 3;
    assert(data_prologue_at(nib, dp)) by {
        let j0 = g + 19;
        let j1 = g + 20;
        let j2 = g + 21;
        assert(nib[off + j0] == s[j0]);
        assert(nib[off + j1] == s[j1]);
        assert(nib[off + j2] == s[j2]);
    }
    assert(nib.subrange(start, start + 343) =~= enc) by {
        assert forall|k: int| 0 <= k < 343 implies nib.subrange(start, start + 343)[k] == enc[k] by {
            let j = g + 22 + k;
            assert(nib[off + j] == s[j]);
        }
    }
    let raw2 = write_sector_bytes(raw, sector_offset(track, dos33_logical(n)), data);
    lemma_scan_data_field(nib, dp, enc, n, data, raw, track);
    // After the data field only the epilogue and a sync byte remain.
    assert forall|i: int| start + 344 <= i < off + g + 369 implies !#[trigger] data_prologue_at(nib, i) by {
        let j = i - off;
        assert(nib[off + j] == s[j]);
    }
    lemma_scan_skip(nib, start + 344, off + g + 369, n + 1, raw2, track);
}

/// Scanning one sector's stream, which lies at `off` in the track: its
/// data field is found, decoded and stored at its logical place, and the
/// scan goes on right after the stream.
proof fn lemma_scan_sector(nib: Seq<u8>, off: int, track: u8, n: int, data: Seq<u8>, raw: Seq<u8>)
    requires
        nib.len() == NIBBLE_TRACK_SIZE,
        0 <= n < 16,
        data.len() == 256,
        encodes_without_de(data),
        0 <= off,
        off + sector_nibbles(track, n as u8, data).len() <= NIBBLE_TRACK_SIZE,
        forall|i: int| 0 <= i < sector_nibbles(track, n as u8, data).len() ==> #[trigger] nib[off + i] == sector_nibbles(track, n as u8, data)[i],
    ensures
        scan_track(nib, off, n, raw, track as int) == scan_track(
            nib,
            off + sector_nibbles(track, n as u8, data).len(),
            n + 1,
            write_sector_bytes(raw, sector_offset(track as int, dos33_logical(n)), data),
            track as int,
        ),
{
    lemma_sector_layout(track, n as u8, data);
    lemma_six_and_two_roundtrip(data);
    lemma_scan_stream(
        nib,
        off,
        sector_nibbles(track, n as u8, data),
        gap_len(track, n as u8),
        six_and_two(data),
        n,
        data,
        raw,
        track as int,
    );
}

/// The image `base` after the first `n` physical sectors of track `track`
/// of `raw` were stored at their logical places, in physical order.
pub open spec fn decoded_prefix(base: Seq<u8>, raw: Seq<u8>, track: int, n: int) -> Seq<u8>
    decreases n,
{
    if n <= 0 {
        base
    } else {
        let l = dos33_logical(n - 1);
        write_sector_bytes(decoded_prefix(base, raw, track, n - 1), sector_offset(track, l), sector_data(raw, track, l))
    }
}

/// Whether byte `i` belongs to the logical sector of one of the first `n`
/// physical sectors of track `track`.
pub open spec fn covered(track: int, n: int, i: int) -> bool
    decreases n,
{
    if n <= 0 {
        false
    } else {
        covered(track, n - 1, i) || (sector_offset(track, dos33_logical(n - 1)) <= i < sector_offset(
            track,
            dos33_logical(n - 1),
        ) + 256)
    }
}

/// A shorter sector stream is a prefix of a longer one.
proof fn lemma_track_stream_prefix(raw: Seq<u8>, track: int, n: int, m: int)
    requires
        0 <= n <= m <= 16,
    ensures
        track_stream(raw, track, n).len() <= track_stream(raw, track, m).len(),
        track_stream(raw, track, m).subrange(0, track_stream(raw, track, n).len() as int) == track_stream(raw, track, n),
    decreases m,
{
    if m > n {
        lemma_track_stream_prefix(raw, track, n, m - 1);
        let a = track_stream(raw, track, m - 1);
        let b = track_stream(raw, track, m);
        let k = track_stream(raw, track, n).len() as int;
        assert(b.subrange(0, k) =~= a.subrange(0, k));
    } else {
        assert(track_stream(raw, track, m).subrange(0, track_stream(raw, track, m).len() as int) =~= track_stream(
            raw,
            track,
            m,
        ));
    }
}

/// Physical sector `n`'s stream lies in the nibblized track right after
/// the streams of the sectors before it.
proof fn lemma_sector_in_track(raw: Seq<u8>, track: int, n: int)
    requires
        raw.len() == DSK_SIZE,
        0 <= track < 35,
        0 <= n < 16,
    ensures
        ({
            let off = track_stream(raw, track, n).len() as int;
            let s = sector_nibbles(track as u8, n as u8, sector_data(raw, track, dos33_logical(n)));
            &&& off + s.len() == track_stream(raw, track, n + 1).len()
            &&& off + s.len() <= 6632
            &&& forall|i: int| 0 <= i < s.len() ==> #[trigger] track_nibbles(raw, track)[off + i] == s[i]
        }),
{
    let off = track_stream(raw, track, n).len() as int;
    let l = dos33_logical(n);
    assert(0 <= l < 16);
    assert(sector_offset(track, l) + 256 <= DSK_SIZE);
    let s = sector_nibbles(track as u8, n as u8, sector_data(raw, track, l));
    lemma_track_stream_len(raw, track, 16);
    lemma_track_stream_prefix(raw, track, n + 1, 16);
    let full = track_stream(raw, track, 16);
    let next = track_stream(raw, track, n + 1);
    assert(next == track_stream(raw, track, n) + s);
    assert forall|i: int| 0 <= i < s.len() implies #[trigger] track_nibbles(raw, track)[off + i] == s[i] by {
        assert(full.subrange(0, next.len() as int)[off + i] == next[off + i]);
    }
}

/// Scanning the nibblized track up to physical sector `n` stores the
/// first `n` sectors.
proof fn lemma_scan_track_prefix(raw: Seq<u8>, base: Seq<u8>, track: int, n: int)
    requires
        raw.len() == DSK_SIZE,
        0 <= track < 35,
        0 <= n <= 16,
        track_decodable(raw, track),
    ensures
        scan_track(track_nibbles(raw, track), 0, 0, base, track) == scan_track(
            track_nibbles(raw, track),
            track_stream(raw, track, n).len() as int,
            n,
            decoded_prefix(base, raw, track, n),
            track,
        ),
    decreases n,
{
    if n > 0 {
        lemma_scan_track_prefix(raw, base, track, n - 1);
        let k = n - 1;
        let l = dos33_logical(k);
        assert(encodes_without_de(sector_data(raw, track, l)));
        lemma_sector_in_track(raw, track, k);
        lemma_scan_sector(
            track_nibbles(raw, track),
            track_stream(raw, track, k).len() as int,
            track as u8,
            k,
            sector_data(raw, track, l),
            decoded_prefix(base, raw, track, k),
        );
    }
}

/// The bytes of the image after the first `n` sectors were stored: those
/// of the sectors stored come from `raw`, the others from `base`.
proof fn lemma_decoded_prefix_bytes(base: Seq<u8>, raw: Seq<u8>, track: int, n: int)
    requires
        raw.len() == DSK_SIZE,
        base.len() == DSK_SIZE,
        0 <= track < 35,
        0 <= n <= 16,
    ensures
        decoded_prefix(base, raw, track, n).len() == DSK_SIZE,
        forall|i: int| 0 <= i < DSK_SIZE ==> #[trigger] decoded_prefix(base, raw, track, n)[i] == (if covered(
            track,
            n,
            i,
        ) {
            raw[i]
        } else {
            base[i]
        }),
    decreases n,
{
    if n > 0 {
        lemma_decoded_prefix_bytes(base, raw, track, n - 1);
        let l = dos33_logical(n - 1);
        assert(0 <= l < 16);
        assert(sector_offset(track, l) + 256 <= DSK_SIZE);
    }
}

/// The logical sectors of all 16 physical sectors cover the whole track.
proof fn lemma_all_sectors_cover_track(track: int, i: int)
    requires
        0 <= track < 35,
        0 <= i < DSK_SIZE,
    ensures
        covered(track, 16, i) == (track * 4096 <= i < track * 4096 + 4096),
{
    reveal_with_fuel(covered, 17);
}

/// Nibblizing a track and decoding it gives its sectors back: the scan of
/// the nibblized track `track` of `raw` succeeds and stores into `base`
/// exactly the 4096 bytes of that track of `raw`, provided no sector of
/// the track encodes to a $DE nibble (the decoder takes $DE as the end of
/// a data field).
pub proof fn lemma_track_roundtrip(raw: Seq<u8>, base: Seq<u8>, track: int)
    requires
        raw.len() == DSK_SIZE,
        base.len() == DSK_SIZE,
        0 <= track < 35,
        track_decodable(raw, track),
    ensures
        track_nibbles(raw, track).len() == NIBBLE_TRACK_SIZE,
        scan_track(track_nibbles(raw, track), 0, 0, base, track) == (true, with_track(base, raw, track)),
{
    lemma_track_stream_len(raw, track, 16);
    lemma_scan_track_prefix(raw, base, track, 16);
    lemma_decoded_prefix_bytes(base, raw, track, 16);
    let d = decoded_prefix(base, raw, track, 16);
    assert forall|i: int| 0 <= i < DSK_SIZE implies d[i] == with_track(base, raw, track)[i] by {
        lemma_all_sectors_cover_track(track, i);
    }
    assert(d =~= with_track(base, raw, track));
}

} // verus!
