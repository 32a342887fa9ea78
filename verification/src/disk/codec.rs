//! Disk II nibble codec: DOS 3.3 4-and-4 and 6-and-2 encodings, sector and
//! track nibblization, and decoding of nibblized tracks back to sectors.

use vstd::prelude::*;

verus! {

/// Nibblized track size in bytes.
pub const NIBBLE_TRACK_SIZE: usize = 6656;

/// Raw .dsk image size: 35 tracks of 16 sectors of 256 bytes.
pub const DSK_SIZE: usize = 143_360;

pub const TRACK_COUNT: usize = 35;
pub const SECTORS_PER_TRACK: usize = 16;

/// Auxiliary (2-bit group) nibbles of a 6-and-2 data field.
pub const AUX_BYTES: usize = 86;
/// Main (6-bit) nibbles of a 6-and-2 data field.
pub const MAIN_BYTES: usize = 256;
/// Nibbles of a data field before the checksum.
pub const TOTAL_NIBBLES: usize = AUX_BYTES + MAIN_BYTES;
/// Encoded data field length: all nibbles and the checksum.
pub const ENCODED_SECTOR_SIZE: usize = TOTAL_NIBBLES + 1;

// ------------------------------------------------------------- tables

/// DOS 3.3 physical-to-logical sector interleave.
pub open spec fn dos33_logical(phys: int) -> int {
    if phys == 0 { 0 } else if phys == 1 { 7 } else if phys == 2 { 14 } else if phys == 3 { 6 }
    else if phys == 4 { 13 } else if phys == 5 { 5 } else if phys == 6 { 12 } else if phys == 7 { 4 }
    else if phys == 8 { 11 } else if phys == 9 { 3 } else if phys == 10 { 10 } else if phys == 11 { 2 }
    else if phys == 12 { 9 } else if phys == 13 { 1 } else if phys == 14 { 8 } else { 15 }
}

/// DOS 3.3 physical-to-logical sector interleave.
pub fn dos33_sector_order(phys: usize) -> (logical: usize)
    requires
        phys < 16,
    ensures
        logical == dos33_logical(phys as int),
        logical < 16,
{
    match phys {
        0 => 0, 1 => 7, 2 => 14, 3 => 6, 4 => 13, 5 => 5, 6 => 12, 7 => 4,
        8 => 11, 9 => 3, 10 => 10, 11 => 2, 12 => 9, 13 => 1, 14 => 8, _ => 15,
    }
}

/// The DOS 3.3 interleave steps seven logical sectors per physical sector,
/// modulo 15, with sector 15 last: physical sector `p < 15` holds logical
/// sector `7p mod 15`, so logical sector `k < 15` lies at physical
/// `13k mod 15` (13 being the inverse of 7 modulo 15).
pub proof fn lemma_dos33_interleave_steps_by_seven(p: int, k: int)
    requires
        0 <= p < 16,
        0 <= k < 16,
    ensures
        dos33_logical(p) == (if p < 15 { (7 * p) % 15 } else { 15 }),
        k < 15 ==> dos33_logical((13 * k) % 15) == k,
        dos33_logical(15) == 15,
{
    if k == 0 { assert((13 * k) % 15 == 0); } else if k == 1 { assert((13 * k) % 15 == 13); }
    else if k == 2 { assert((13 * k) % 15 == 11); } else if k == 3 { assert((13 * k) % 15 == 9); }
    else if k == 4 { assert((13 * k) % 15 == 7); } else if k == 5 { assert((13 * k) % 15 == 5); }
    else if k == 6 { assert((13 * k) % 15 == 3); } else if k == 7 { assert((13 * k) % 15 == 1); }
    else if k == 8 { assert((13 * k) % 15 == 14); } else if k == 9 { assert((13 * k) % 15 == 12); }
    else if k == 10 { assert((13 * k) % 15 == 10); } else if k == 11 { assert((13 * k) % 15 == 8); }
    else if k == 12 { assert((13 * k) % 15 == 6); } else if k == 13 { assert((13 * k) % 15 == 4); }
    else if k == 14 { assert((13 * k) % 15 == 2); }
    if p == 0 { } else if p == 1 { } else if p == 2 { } else if p == 3 { } else if p == 4 { }
    else if p == 5 { } else if p == 6 { } else if p == 7 { } else if p == 8 { } else if p == 9 { }
    else if p == 10 { } else if p == 11 { } else if p == 12 { } else if p == 13 { } else if p == 14 { }
}

/// The DOS 3.3 interleave is a permutation of the 16 sectors.
pub proof fn lemma_dos33_interleave_is_permutation(p1: int, p2: int)
    requires
        0 <= p1 < 16,
        0 <= p2 < 16,
    ensures
        0 <= dos33_logical(p1) < 16,
        p1 != p2 ==> dos33_logical(p1) != dos33_logical(p2),
{
}

/// 6-and-2 write translation table: the disk byte for each 6-bit value.
pub open spec fn write_table(v: u8) -> u8 {
    match v {
        0 => 0x96,
        1 => 0x97,
        2 => 0x9A,
        3 => 0x9B,
        4 => 0x9D,
        5 => 0x9E,
        6 => 0x9F,
        7 => 0xA6,
        8 => 0xA7,
        9 => 0xAB,
        10 => 0xAC,
        11 => 0xAD,
        12 => 0xAE,
        13 => 0xAF,
        14 => 0xB2,
        15 => 0xB3,
        16 => 0xB4,
        17 => 0xB5,
        18 => 0xB6,
        19 => 0xB7,
        20 => 0xB9,
        21 => 0xBA,
        22 => 0xBB,
        23 => 0xBC,
        24 => 0xBD,
        25 => 0xBE,
        26 => 0xBF,
        27 => 0xCB,
        28 => 0xCD,
        29 => 0xCE,
        30 => 0xCF,
        31 => 0xD3,
        32 => 0xD6,
        33 => 0xD7,
        34 => 0xD9,
        35 => 0xDA,
        36 => 0xDB,
        37 => 0xDC,
        38 => 0xDD,
        39 => 0xDE,
        40 => 0xDF,
        41 => 0xE5,
        42 => 0xE6,
        43 => 0xE7,
        44 => 0xE9,
        45 => 0xEA,
        46 => 0xEB,
        47 => 0xEC,
        48 => 0xED,
        49 => 0xEE,
        50 => 0xEF,
        51 => 0xF2,
        52 => 0xF3,
        53 => 0xF4,
        54 => 0xF5,
        55 => 0xF6,
        56 => 0xF7,
        57 => 0xF9,
        58 => 0xFA,
        59 => 0xFB,
        60 => 0xFC,
        61 => 0xFD,
        62 => 0xFE,
        63 => 0xFF,
        _ => 0,
    }
}

/// Reverse of the translation table: the 6-bit value of a disk byte, or
/// 0xFF for a byte that is not in the table.
pub open spec fn reverse_code(code: u8) -> u8 {
    match code {
        0x96 => 0,
        0x97 => 1,
        0x9A => 2,
        0x9B => 3,
        0x9D => 4,
        0x9E => 5,
        0x9F => 6,
        0xA6 => 7,
        0xA7 => 8,
        0xAB => 9,
        0xAC => 10,
        0xAD => 11,
        0xAE => 12,
        0xAF => 13,
        0xB2 => 14,
        0xB3 => 15,
        0xB4 => 16,
        0xB5 => 17,
        0xB6 => 18,
        0xB7 => 19,
        0xB9 => 20,
        0xBA => 21,
        0xBB => 22,
        0xBC => 23,
        0xBD => 24,
        0xBE => 25,
        0xBF => 26,
        0xCB => 27,
        0xCD => 28,
        0xCE => 29,
        0xCF => 30,
        0xD3 => 31,
        0xD6 => 32,
        0xD7 => 33,
        0xD9 => 34,
        0xDA => 35,
        0xDB => 36,
        0xDC => 37,
        0xDD => 38,
        0xDE => 39,
        0xDF => 40,
        0xE5 => 41,
        0xE6 => 42,
        0xE7 => 43,
        0xE9 => 44,
        0xEA => 45,
        0xEB => 46,
        0xEC => 47,
        0xED => 48,
        0xEE => 49,
        0xEF => 50,
        0xF2 => 51,
        0xF3 => 52,
        0xF4 => 53,
        0xF5 => 54,
        0xF6 => 55,
        0xF7 => 56,
        0xF9 => 57,
        0xFA => 58,
        0xFB => 59,
        0xFC => 60,
        0xFD => 61,
        0xFE => 62,
        0xFF => 63,
        _ => 0xFF,
    }
}

/// Disk byte of a 6-bit value.
pub fn write_table_entry(v: u8) -> (code: u8)
    requires
        v < 64,
    ensures
        code == write_table(v),
{
    match v {
        0 => 0x96,
        1 => 0x97,
        2 => 0x9A,
        3 => 0x9B,
        4 => 0x9D,
        5 => 0x9E,
        6 => 0x9F,
        7 => 0xA6,
        8 => 0xA7,
        9 => 0xAB,
        10 => 0xAC,
        11 => 0xAD,
        12 => 0xAE,
        13 => 0xAF,
        14 => 0xB2,
        15 => 0xB3,
        16 => 0xB4,
        17 => 0xB5,
        18 => 0xB6,
        19 => 0xB7,
        20 => 0xB9,
        21 => 0xBA,
        22 => 0xBB,
        23 => 0xBC,
        24 => 0xBD,
        25 => 0xBE,
        26 => 0xBF,
        27 => 0xCB,
        28 => 0xCD,
        29 => 0xCE,
        30 => 0xCF,
        31 => 0xD3,
        32 => 0xD6,
        33 => 0xD7,
        34 => 0xD9,
        35 => 0xDA,
        36 => 0xDB,
        37 => 0xDC,
        38 => 0xDD,
        39 => 0xDE,
        40 => 0xDF,
        41 => 0xE5,
        42 => 0xE6,
        43 => 0xE7,
        44 => 0xE9,
        45 => 0xEA,
        46 => 0xEB,
        47 => 0xEC,
        48 => 0xED,
        49 => 0xEE,
        50 => 0xEF,
        51 => 0xF2,
        52 => 0xF3,
        53 => 0xF4,
        54 => 0xF5,
        55 => 0xF6,
        56 => 0xF7,
        57 => 0xF9,
        58 => 0xFA,
        59 => 0xFB,
        60 => 0xFC,
        61 => 0xFD,
        62 => 0xFE,
        63 => 0xFF,
        _ => 0,
    }
}

/// Every table entry is a valid disk nibble (at least 0x96, so the high
/// bit is set), and the table is inverted by `reverse_code`.
pub proof fn lemma_write_table(v: u8)
    requires
        v < 64,
    ensures
        write_table(v) >= 0x96,
        reverse_code(write_table(v)) == v,
        write_table(v) != 0xD5 && write_table(v) != 0xAA,
{
}

/// Bit `i` (0 to 7) of `b`, as 0 or 1.
pub open spec fn bit_at(b: u8, i: int) -> int {
    let d: int = if i == 0 { 1 } else if i == 1 { 2 } else if i == 2 { 4 } else if i == 3 { 8 }
        else if i == 4 { 16 } else if i == 5 { 32 } else if i == 6 { 64 } else { 128 };
    (b as int / d) % 2
}

/// Whether `b` can be read back from a Disk II track as data: the high bit
/// is set, at most one pair of neighbouring bits is both zero, and among
/// bits 0 to 6 some two neighbours are both one.
pub open spec fn readable_nibble(b: u8) -> bool {
    let zero_pairs = (if bit_at(b, 0) == 0 && bit_at(b, 1) == 0 { 1int } else { 0int })
        + (if bit_at(b, 1) == 0 && bit_at(b, 2) == 0 { 1int } else { 0int })
        + (if bit_at(b, 2) == 0 && bit_at(b, 3) == 0 { 1int } else { 0int })
        + (if bit_at(b, 3) == 0 && bit_at(b, 4) == 0 { 1int } else { 0int })
        + (if bit_at(b, 4) == 0 && bit_at(b, 5) == 0 { 1int } else { 0int })
        + (if bit_at(b, 5) == 0 && bit_at(b, 6) == 0 { 1int } else { 0int })
        + (if bit_at(b, 6) == 0 && bit_at(b, 7) == 0 { 1int } else { 0int });
    let ones = (bit_at(b, 0) == 1 && bit_at(b, 1) == 1) || (bit_at(b, 1) == 1 && bit_at(b, 2) == 1)
        || (bit_at(b, 2) == 1 && bit_at(b, 3) == 1) || (bit_at(b, 3) == 1 && bit_at(b, 4) == 1)
        || (bit_at(b, 4) == 1 && bit_at(b, 5) == 1) || (bit_at(b, 5) == 1 && bit_at(b, 6) == 1);
    b >= 0x80 && zero_pairs <= 1 && ones
}

/// The 6-and-2 table lists, in increasing order, disk bytes that can be
/// read back as data, none of them the reserved marks $AA and $D5.
pub proof fn lemma_write_table_ascending_readable(v: u8)
    requires
        v < 64,
    ensures
        readable_nibble(write_table(v)),
        write_table(v) != 0xAA && write_table(v) != 0xD5,
        v < 63 ==> write_table(v) < write_table((v + 1) as u8),
{
}

/// A byte with a 6-bit value is the table entry of that value.
pub proof fn lemma_reverse_code(code: u8)
    ensures
        reverse_code(code) == 0xFF || (reverse_code(code) < 64 && write_table(reverse_code(code)) == code),
{
}

/// Reverse lookup table for 6-and-2 decoding: maps a disk nibble to its
/// 6-bit value; entries not in the write table are 0xFF.
pub fn build_reverse_table() -> (table: [u8; 256])
    ensures
        forall|c: int| 0 <= c < 256 ==> table@[c] == reverse_code(c as u8),
{
    let mut table = [0xFFu8; 256];
    let mut k: usize = 0;
    while k < 256
        invariant
            k <= 256,
            forall|j: int| 0 <= j < k ==> table@[j] == 0xFF,
        decreases 256 - k,
    {
        table[k] = 0xFF;
        k = k + 1;
    }
    let mut i: u8 = 0;
    while i < 64
        invariant
            i <= 64,
            forall|c: int| 0 <= c < 256 ==> table@[c] == (if reverse_code(c as u8) < i { reverse_code(c as u8) } else { 0xFF }),
        decreases 64 - i,
    {
        let code = write_table_entry(i);
        proof {
            lemma_write_table(i);
            assert forall|c: int| 0 <= c < 256 && c != code implies #[trigger] reverse_code(c as u8) != i by {
                lemma_reverse_code(c as u8);
            }
        }
        table[code as usize] = i;
        i = i + 1;
    }
    proof {
        assert forall|c: int| 0 <= c < 256 implies table@[c] == reverse_code(c as u8) by {
            lemma_reverse_code(c as u8);
        }
    }
    table
}

// ------------------------------------------------------------- 4-and-4

/// 4-and-4 encoding of a byte: odd bits, then even bits, each ORed into 0xAA.
pub open spec fn four_and_four(val: u8) -> Seq<u8> {
    seq![(val >> 1) | 0xAA, val | 0xAA]
}

/// 4-and-4 encode: byte B -> two disk bytes.
pub fn encode_4and4(buf: &mut Vec<u8>, val: u8)
    ensures
        final(buf)@ == old(buf)@ + four_and_four(val),
{
    buf.push((val >> 1) | 0xAA);
    buf.push(val | 0xAA);
}

/// The two bytes of a 4-and-4 pair give back the byte: ((b0 << 1) | 1) & b1.
pub proof fn lemma_4and4_decodes(val: u8)
    ensures
        (((four_and_four(val)[0] << 1u8) | 1u8) & four_and_four(val)[1]) == val,
        four_and_four(val)[0] >= 0xAA && four_and_four(val)[1] >= 0xAA,
        four_and_four(val)[0] != 0xD5 && four_and_four(val)[1] != 0xD5,
{
    assert((((val >> 1u8) | 0xAAu8) << 1u8 | 1u8) & (val | 0xAAu8) == val) by (bit_vector);
    assert(((val >> 1u8) | 0xAAu8) >= 0xAA && (val | 0xAAu8) >= 0xAA) by (bit_vector);
    assert(((val >> 1u8) | 0xAAu8) != 0xD5 && (val | 0xAAu8) != 0xD5) by (bit_vector);
}

// ------------------------------------------------------------- 6-and-2

/// A 2-bit group with its bits swapped.
pub open spec fn swap2(b: u8) -> u8 {
    ((b % 2) * 2 + (b / 2) % 2) as u8
}

/// Auxiliary nibble `s` (0..86): the low bit pairs, swapped, of data bytes
/// `s`, `s + 86` and `s + 172` (wrapping to 0 and 1 for the last two).
pub open spec fn aux_nibble(data: Seq<u8>, s: int) -> u8 {
    (swap2(data[(s + 172) % 256]) * 16 + swap2(data[s + 86]) * 4 + swap2(data[s])) as u8
}

/// The 342 6-bit values of a data field: 86 auxiliary ones, then the top
/// six bits of each of the 256 bytes.
pub open spec fn pre_nibble(data: Seq<u8>, i: int) -> u8 {
    if i < 86 { aux_nibble(data, i) } else { data[i - 86] / 4 }
}

/// 6-and-2 encoding of 256 bytes: each value XORed with the previous one
/// and translated, then the last value as checksum. 343 disk bytes.
pub open spec fn six_and_two(data: Seq<u8>) -> Seq<u8> {
    Seq::new(343, |i: int|
        if i == 0 {
            write_table(pre_nibble(data, 0))
        } else if i < 342 {
            write_table(pre_nibble(data, i - 1) ^ pre_nibble(data, i))
        } else {
            write_table(pre_nibble(data, 341))
        })
}

fn swap_pair(b: u8) -> (r: u8)
    ensures
        r == swap2(b),
        r < 4,
{
    (b % 2) * 2 + (b / 2) % 2
}

proof fn lemma_xor_six_bits(a: u8, b: u8)
    requires
        a < 64,
        b < 64,
    ensures
        a ^ b < 64,
{
    assert(a < 64 && b < 64 ==> a ^ b < 64) by (bit_vector);
}

/// 6-and-2 encoding: 256 raw bytes -> 342 nibblized bytes + 1 checksum byte.
pub fn encode_6and2(buf: &mut Vec<u8>, data: &[u8])
    requires
        data@.len() >= 256,
    ensures
        final(buf)@ == old(buf)@ + six_and_two(data@),
{
    let mut nibbles: Vec<u8> = Vec::new();
    let mut s: usize = 0;
    while s < AUX_BYTES
        invariant
            data@.len() >= 256,
            s <= 86,
            nibbles@.len() == s,
            forall|k: int| 0 <= k < s ==> nibbles@[k] == pre_nibble(data@, k) && nibbles@[k] < 64,
        decreases 86 - s,
    {
        let v = swap_pair(data[(s + 172) % 256]) * 16 + swap_pair(data[s + 86]) * 4 + swap_pair(data[s]);
        nibbles.push(v);
        s = s + 1;
    }
    let mut i: usize = 0;
    while i < MAIN_BYTES
        invariant
            data@.len() >= 256,
            i <= 256,
            nibbles@.len() == 86 + i,
            forall|k: int| 0 <= k < 86 + i ==> nibbles@[k] == pre_nibble(data@, k) && nibbles@[k] < 64,
        decreases 256 - i,
    {
        nibbles.push(data[i] / 4);
        i = i + 1;
    }

    let ghost start = buf@;
    let mut last: u8 = 0;
    let mut k: usize = 0;
    while k < TOTAL_NIBBLES
        invariant
            nibbles@.len() == 342,
            forall|j: int| 0 <= j < 342 ==> nibbles@[j] == pre_nibble(data@, j) && nibbles@[j] < 64,
            k <= 342,
            last < 64,
            k == 0 ==> last == 0,
            k > 0 ==> last == pre_nibble(data@, k - 1),
            buf@.len() == start.len() + k,
            forall|j: int| 0 <= j < start.len() ==> buf@[j] == start[j],
            forall|j: int| 0 <= j < k ==> buf@[start.len() + j] == six_and_two(data@)[j],
        decreases 342 - k,
    {
        let val = nibbles[k];
        proof {
            lemma_xor_six_bits(last, val);
            assert(0u8 ^ val == val) by (bit_vector);
        }
        buf.push(write_table_entry(last ^ val));
        last = val;
        k = k + 1;
    }
    buf.push(write_table_entry(last));
    assert(buf@ =~= start + six_and_two(data@));
}

/// `v[0] ^ v[1] ^ ... ^ v[i]`.
pub open spec fn xor_prefix(v: Seq<u8>, i: int) -> u8
    decreases i,
{
    if i <= 0 { v[0] } else { xor_prefix(v, i - 1) ^ v[i] }
}

/// 6-bit values of a sequence of disk bytes (0xFF marks an invalid byte).
pub open spec fn nibble_values(enc: Seq<u8>) -> Seq<u8> {
    enc.map_values(|c: u8| reverse_code(c))
}

/// Divisor selecting the bit pair of visit `v` (0, 1 or 2) of an auxiliary nibble.
pub open spec fn pair_divisor(v: int) -> u8 {
    if v == 0 { 1 } else if v == 1 { 4 } else { 16 }
}

/// Byte `i` of a decoded data field, from the running XOR of its values.
pub open spec fn decoded_byte(vals: Seq<u8>, i: int) -> u8 {
    let main = xor_prefix(vals, 86 + i);
    let pair = (xor_prefix(vals, i % 86) / pair_divisor(i / 86)) % 4;
    (main * 4 + swap2(pair as u8)) as u8
}

/// Decoding of a 343-byte 6-and-2 data field: none when a byte is not a
/// valid nibble or the checksum does not cancel, else the 256 data bytes.
pub open spec fn decode_six_and_two(enc: Seq<u8>) -> Option<Seq<u8>> {
    let vals = nibble_values(enc);
    if exists|i: int| 0 <= i < 343 && vals[i] == 0xFF {
        None
    } else if (vals[342] ^ xor_prefix(vals, 341)) != 0 {
        None
    } else {
        Some(Seq::new(256, |i: int| decoded_byte(vals, i)))
    }
}

proof fn lemma_xor_prefix_six_bits(vals: Seq<u8>, i: int)
    requires
        0 <= i < vals.len(),
        forall|k: int| 0 <= k <= i ==> vals[k] < 64,
    ensures
        xor_prefix(vals, i) < 64,
    decreases i,
{
    if i > 0 {
        lemma_xor_prefix_six_bits(vals, i - 1);
        lemma_xor_six_bits(xor_prefix(vals, i - 1), vals[i]);
    }
}

/// Decode a 343-byte 6-and-2 data field.
pub fn decode_6and2_sector(encoded: &[u8]) -> (res: Option<[u8; 256]>)
    requires
        encoded@.len() == 343,
    ensures
        match decode_six_and_two(encoded@) {
            None => res is None,
            Some(d) => res matches Some(a) && a@ == d,
        },
{
    let ghost vals = nibble_values(encoded@);
    let table = build_reverse_table();
    let mut dec = [0u8; 342];
    let mut last: u8 = 0;
    let mut idx: usize = 0;
    while idx < TOTAL_NIBBLES
        invariant
            encoded@.len() == 343,
            vals == nibble_values(encoded@),
            forall|c: int| 0 <= c < 256 ==> table@[c] == reverse_code(c as u8),
            idx <= 342,
            forall|k: int| 0 <= k < idx ==> vals[k] != 0xFF && vals[k] < 64,
            forall|k: int| 0 <= k < idx ==> #[trigger] dec@[k] == xor_prefix(vals, k) && dec@[k] < 64,
            idx == 0 ==> last == 0,
            idx > 0 ==> last == xor_prefix(vals, idx - 1),
            last < 64,
        decreases 342 - idx,
    {
        let val = table[encoded[idx] as usize];
        if val == 0xFF {
            assert(vals[idx as int] == 0xFF);
            return None;
        }
        proof {
            lemma_reverse_code(encoded@[idx as int]);
            lemma_xor_six_bits(last, val);
            assert(0u8 ^ val == val) by (bit_vector);
        }
        let d = val ^ last;
        assert(d == xor_prefix(vals, idx as int)) by {
            assert(val ^ last == last ^ val) by (bit_vector);
        }
        dec[idx] = d;
        last = d;
        idx = idx + 1;
    }

    let checksum_val = table[encoded[342] as usize];
    if checksum_val == 0xFF {
        assert(vals[342] == 0xFF);
        return None;
    }
    if checksum_val ^ last != 0 {
        return None;
    }
    assert(!(exists|i: int| 0 <= i < 343 && vals[i] == 0xFF));

    let mut data = [0u8; 256];
    let mut i: usize = 0;
    while i < MAIN_BYTES
        invariant
            i <= 256,
            forall|k: int| 0 <= k < 342 ==> #[trigger] dec@[k] == xor_prefix(vals, k) && dec@[k] < 64,
            forall|k: int| 0 <= k < i ==> data@[k] == decoded_byte(vals, k),
            vals == nibble_values(encoded@),
        decreases 256 - i,
    {
        let visit = i / 86;
        let divisor: u8 = if visit == 0 { 1 } else if visit == 1 { 4 } else { 16 };
        let pair = (dec[i % 86] / divisor) % 4;
        let main = dec[86 + i];
        assert(86 + i < 342);
        assert(main == dec@[86 + i as int]);
        assert(dec@[86 + i as int] == xor_prefix(vals, 86 + i as int) && dec@[86 + i as int] < 64);
        data[i] = main * 4 + swap_pair(pair);
        i = i + 1;
    }
    assert(data@ =~= Seq::new(256, |i: int| decoded_byte(vals, i)));
    Some(data)
}

proof fn lemma_pre_nibble_six_bits(data: Seq<u8>, i: int)
    requires
        data.len() == 256,
        0 <= i < 342,
    ensures
        pre_nibble(data, i) < 64,
{
}

proof fn lemma_xor_cancel(a: u8, b: u8)
    ensures
        a ^ (a ^ b) == b,
        a ^ a == 0,
{
    assert(a ^ (a ^ b) == b) by (bit_vector);
    assert(a ^ a == 0) by (bit_vector);
}

proof fn lemma_prefix_recovers_pre_nibbles(data: Seq<u8>, i: int)
    requires
        data.len() == 256,
        0 <= i < 342,
    ensures
        xor_prefix(nibble_values(six_and_two(data)), i) == pre_nibble(data, i),
    decreases i,
{
    let vals = nibble_values(six_and_two(data));
    lemma_pre_nibble_six_bits(data, i);
    if i == 0 {
        lemma_write_table(pre_nibble(data, 0));
    } else {
        lemma_prefix_recovers_pre_nibbles(data, i - 1);
        lemma_pre_nibble_six_bits(data, i - 1);
        lemma_xor_six_bits(pre_nibble(data, i - 1), pre_nibble(data, i));
        lemma_write_table(pre_nibble(data, i - 1) ^ pre_nibble(data, i));
        assert(vals[i] == pre_nibble(data, i - 1) ^ pre_nibble(data, i));
        lemma_xor_cancel(pre_nibble(data, i - 1), pre_nibble(data, i));
    }
}

proof fn lemma_base4_digits(a: int, b: int, c: int)
    requires
        0 <= a < 4,
        0 <= b < 4,
        0 <= c < 4,
    ensures
        (a * 16 + b * 4 + c) % 4 == c,
        ((a * 16 + b * 4 + c) / 4) % 4 == b,
        ((a * 16 + b * 4 + c) / 16) % 4 == a,
{
}

proof fn lemma_swap2(x: u8)
    ensures
        swap2(x) < 4,
        swap2(swap2(x)) == x % 4,
        (x / 4) * 4 + x % 4 == x,
{
}

proof fn lemma_decoded_byte(data: Seq<u8>, i: int)
    requires
        data.len() == 256,
        0 <= i < 256,
    ensures
        decoded_byte(nibble_values(six_and_two(data)), i) == data[i],
{
    let vals = nibble_values(six_and_two(data));
    let s = i % 86;
    let v = i / 86;
    lemma_prefix_recovers_pre_nibbles(data, 86 + i);
    lemma_prefix_recovers_pre_nibbles(data, s);
    let a = swap2(data[(s + 172) % 256]);
    let b = swap2(data[s + 86]);
    let c = swap2(data[s]);
    lemma_swap2(data[(s + 172) % 256]);
    lemma_swap2(data[s + 86]);
    lemma_swap2(data[s]);
    lemma_swap2(data[i]);
    lemma_base4_digits(a as int, b as int, c as int);
    let aux = aux_nibble(data, s);
    assert(aux as int == a * 16 + b * 4 + c);
    assert(xor_prefix(vals, s) == aux);
    let pair = (xor_prefix(vals, s) / pair_divisor(v)) % 4;
    assert(pair == swap2(data[i])) by {
        if v == 0 {
            assert(pair_divisor(v) == 1);
            assert(pair as int == (aux as int / 1) % 4);
            assert(s == i);
        } else if v == 1 {
            assert(pair_divisor(v) == 4);
            assert(pair as int == (aux as int / 4) % 4);
            assert(s + 86 == i);
        } else {
            assert(pair_divisor(v) == 16);
            assert(pair as int == (aux as int / 16) % 4);
            assert((s + 172) % 256 == i);
        }
    }
    assert(xor_prefix(vals, 86 + i) == data[i] / 4);
}

/// 6-and-2 decoding gives back the encoded sector: the codec round-trips
/// every 256-byte sector.
pub proof fn lemma_six_and_two_roundtrip(data: Seq<u8>)
    requires
        data.len() == 256,
    ensures
        decode_six_and_two(six_and_two(data)) == Some(data),
{
    let enc = six_and_two(data);
    let vals = nibble_values(enc);
    assert forall|i: int| 0 <= i < 343 implies vals[i] != 0xFF by {
        if i == 0 {
            lemma_pre_nibble_six_bits(data, 0);
            lemma_write_table(pre_nibble(data, 0));
        } else if i < 342 {
            lemma_pre_nibble_six_bits(data, i - 1);
            lemma_pre_nibble_six_bits(data, i);
            lemma_xor_six_bits(pre_nibble(data, i - 1), pre_nibble(data, i));
            lemma_write_table(pre_nibble(data, i - 1) ^ pre_nibble(data, i));
        } else {
            lemma_pre_nibble_six_bits(data, 341);
            lemma_write_table(pre_nibble(data, 341));
        }
    }
    lemma_pre_nibble_six_bits(data, 341);
    lemma_write_table(pre_nibble(data, 341));
    lemma_prefix_recovers_pre_nibbles(data, 341);
    lemma_xor_cancel(pre_nibble(data, 341), pre_nibble(data, 341));
    assert forall|i: int| 0 <= i < 256 implies decoded_byte(vals, i) == data[i] by {
        lemma_decoded_byte(data, i);
    }
    assert(Seq::new(256, |i: int| decoded_byte(vals, i)) =~= data);
}

/// Every byte of a 6-and-2 data field is a valid disk nibble.
pub proof fn lemma_six_and_two_valid_nibbles(data: Seq<u8>, i: int)
    requires
        data.len() == 256,
        0 <= i < 343,
    ensures
        six_and_two(data)[i] >= 0x96,
        six_and_two(data)[i] != 0xD5 && six_and_two(data)[i] != 0xAA,
{
    if i == 0 {
        lemma_pre_nibble_six_bits(data, 0);
        lemma_write_table(pre_nibble(data, 0));
    } else if i < 342 {
        lemma_pre_nibble_six_bits(data, i - 1);
        lemma_pre_nibble_six_bits(data, i);
        lemma_xor_six_bits(pre_nibble(data, i - 1), pre_nibble(data, i));
        lemma_write_table(pre_nibble(data, i - 1) ^ pre_nibble(data, i));
    } else {
        lemma_pre_nibble_six_bits(data, 341);
        lemma_write_table(pre_nibble(data, 341));
    }
}

} // verus!

verus! {

// ------------------------------------------------------------- sectors and tracks

/// `n` sync bytes (0xFF).
pub open spec fn sync_bytes(n: int) -> Seq<u8> {
    Seq::new(n as nat, |i: int| 0xFFu8)
}

/// Sync bytes before a sector's address field (DOS 3.3 layout).
pub open spec fn gap_len(track: u8, sector: u8) -> int {
    if sector == 0 { 0x80 } else if track == 0 { 0x28 } else { 0x26 }
}

/// The nibble stream of one sector: gap, address field (volume 0xFE,
/// track, sector, checksum in 4-and-4), sync bytes, data field in 6-and-2,
/// and one trailing sync byte.
pub open spec fn sector_nibbles(track: u8, sector: u8, data: Seq<u8>) -> Seq<u8> {
    sync_bytes(gap_len(track, sector))
        + seq![0xD5u8, 0xAAu8, 0x96u8]
        + four_and_four(0xFE)
        + four_and_four(track)
        + four_and_four(sector)
        + four_and_four(0xFEu8 ^ track ^ sector)
        + seq![0xDEu8, 0xAAu8, 0xEBu8]
        + sync_bytes(5)
        + seq![0xD5u8, 0xAAu8, 0xADu8]
        + six_and_two(data)
        + seq![0xDEu8, 0xAAu8, 0xEBu8]
        + seq![0xFFu8]
}

fn push_sync(buf: &mut Vec<u8>, n: usize)
    ensures
        final(buf)@ == old(buf)@ + sync_bytes(n as int),
{
    let ghost start = buf@;
    let mut i: usize = 0;
    while i < n
        invariant
            i <= n,
            buf@ =~= start + sync_bytes(i as int),
        decreases n - i,
    {
        buf.push(0xFF);
        i = i + 1;
    }
}

/// Nibblize a single sector: address field + data field.
pub fn nibblize_sector(buf: &mut Vec<u8>, track: u8, sector: u8, data: &[u8])
    requires
        data@.len() >= 256,
    ensures
        final(buf)@ == old(buf)@ + sector_nibbles(track, sector, data@),
{
    let ghost start = buf@;
    let volume: u8 = 0xFE; // standard volume number

    // Gap 1 / Gap 3 (values follow DOS 3.3 layout)
    let gap: usize = if sector == 0 {
        0x80
    } else if track == 0 {
        0x28
    } else {
        0x26
    };
    push_sync(buf, gap);

    // Address field prologue
    buf.push(0xD5);
    buf.push(0xAA);
    buf.push(0x96);

    // 4-and-4 encoded: volume, track, sector, checksum
    encode_4and4(buf, volume);
    encode_4and4(buf, track);
    encode_4and4(buf, sector);
    encode_4and4(buf, volume ^ track ^ sector);

    // Address field epilogue
    buf.push(0xDE);
    buf.push(0xAA);
    buf.push(0xEB);

    // Gap 2: 5 sync bytes
    push_sync(buf, 5);

    // Data field prologue
    buf.push(0xD5);
    buf.push(0xAA);
    buf.push(0xAD);

    // 6-and-2 encode the 256 data bytes
    encode_6and2(buf, data);

    // Data field epilogue
    buf.push(0xDE);
    buf.push(0xAA);
    buf.push(0xEB);

    // Gap 3: 1 sync byte
    buf.push(0xFF);
    assert(buf@ =~= start + sector_nibbles(track, sector, data@));
}

/// Offset in a .dsk image of a logical sector.
pub open spec fn sector_offset(track: int, logical: int) -> int {
    (track * 16 + logical) * 256
}

/// The 256 bytes of a logical sector in a .dsk image.
pub open spec fn sector_data(raw: Seq<u8>, track: int, logical: int) -> Seq<u8> {
    raw.subrange(sector_offset(track, logical), sector_offset(track, logical) + 256)
}

/// The nibble streams of the first `n` physical sectors of a track.
pub open spec fn track_stream(raw: Seq<u8>, track: int, n: int) -> Seq<u8>
    decreases n,
{
    if n <= 0 {
        Seq::empty()
    } else {
        track_stream(raw, track, n - 1)
            + sector_nibbles(track as u8, (n - 1) as u8, sector_data(raw, track, dos33_logical(n - 1)))
    }
}

/// A nibblized track: its 16 sectors in physical order, padded with sync
/// bytes and cut to the track size.
pub open spec fn track_nibbles(raw: Seq<u8>, track: int) -> Seq<u8> {
    let s = track_stream(raw, track, 16);
    if s.len() < NIBBLE_TRACK_SIZE { s + sync_bytes(NIBBLE_TRACK_SIZE - s.len()) } else { s.take(NIBBLE_TRACK_SIZE as int) }
}

/// Length of a sector's nibble stream.
pub proof fn lemma_sector_nibbles_len(track: u8, sector: u8, data: Seq<u8>)
    requires
        data.len() == 256,
    ensures
        sector_nibbles(track, sector, data).len() == gap_len(track, sector) + 369,
{
}

/// The sector streams of a track fit in a track: the stream of `n`
/// sectors has at most 497 + 409 * (n - 1) bytes.
pub proof fn lemma_track_stream_len(raw: Seq<u8>, track: int, n: int)
    requires
        0 <= track < 35,
        1 <= n <= 16,
        raw.len() >= sector_offset(track, 16),
    ensures
        track_stream(raw, track, n).len() <= 497 + 409 * (n - 1),
    decreases n,
{
    let l = dos33_logical(n - 1);
    assert(0 <= l < 16);
    assert(sector_offset(track, l) + 256 <= sector_offset(track, 16));
    assert(sector_data(raw, track, l).len() == 256);
    lemma_sector_nibbles_len(track as u8, (n - 1) as u8, sector_data(raw, track, l));
    if n > 1 {
        lemma_track_stream_len(raw, track, n - 1);
        assert(gap_len(track as u8, (n - 1) as u8) <= 40);
    } else {
        assert(track_stream(raw, track, 0).len() == 0);
    }
}

/// Decoding of a 4-and-4 pair: `((odd << 1) | 1) & even`.
pub open spec fn decode_4and4(odd: u8, even: u8) -> u8 {
    ((odd << 1u8) | 1u8) & even
}

/// The fields of a sector stream around its 343 data-field nibbles `enc`.
spec fn framed_sector(track: u8, sector: u8, enc: Seq<u8>) -> Seq<u8> {
    sync_bytes(gap_len(track, sector))
        + seq![0xD5u8, 0xAAu8, 0x96u8]
        + four_and_four(0xFE)
        + four_and_four(track)
        + four_and_four(sector)
        + four_and_four(0xFEu8 ^ track ^ sector)
        + seq![0xDEu8, 0xAAu8, 0xEBu8]
        + sync_bytes(5)
        + seq![0xD5u8, 0xAAu8, 0xADu8]
        + enc
        + seq![0xDEu8, 0xAAu8, 0xEBu8]
        + seq![0xFFu8]
}

#[verifier::spinoff_prover]
#[verifier::rlimit(60)]
proof fn lemma_framed_sector(track: u8, sector: u8, enc: Seq<u8>)
    requires
        enc.len() == 343,
    ensures
        ({
            let s = framed_sector(track, sector, enc);
            let g = gap_len(track, sector);
            &&& s.len() == g + 369
            &&& forall|i: int| 0 <= i < g ==> s[i] == 0xFF
            &&& s[g] == 0xD5 && s[g + 1] == 0xAA && s[g + 2] == 0x96
            &&& decode_4and4(s[g + 3], s[g + 4]) == 0xFE
            &&& decode_4and4(s[g + 5], s[g + 6]) == track
            &&& decode_4and4(s[g + 7], s[g + 8]) == sector
            &&& decode_4and4(s[g + 9], s[g + 10]) == 0xFEu8 ^ track ^ sector
            &&& s[g + 11] == 0xDE && s[g + 12] == 0xAA && s[g + 13] == 0xEB
            &&& forall|i: int| g + 14 <= i < g + 19 ==> s[i] == 0xFF
            &&& s[g + 19] == 0xD5 && s[g + 20] == 0xAA && s[g + 21] == 0xAD
            &&& s.subrange(g + 22, g + 365) == enc
            &&& s[g + 365] == 0xDE && s[g + 366] == 0xAA && s[g + 367] == 0xEB
            &&& s[g + 368] == 0xFF
        }),
{
    let s = framed_sector(track, sector, enc);
    let g = gap_len(track, sector);
    let chk = 0xFEu8 ^ track ^ sector;
    let addr = seq![0xD5u8, 0xAAu8, 0x96u8, four_and_four(0xFE)[0], four_and_four(0xFE)[1],
        four_and_four(track)[0], four_and_four(track)[1], four_and_four(sector)[0],
        four_and_four(sector)[1], four_and_four(chk)[0], four_and_four(chk)[1],
        0xDEu8, 0xAAu8, 0xEBu8, 0xFFu8, 0xFFu8, 0xFFu8, 0xFFu8, 0xFFu8, 0xD5u8, 0xAAu8, 0xADu8];
    let tail = seq![0xDEu8, 0xAAu8, 0xEBu8, 0xFFu8];
    assert(s =~= sync_bytes(g) + addr + enc + tail);
    lemma_4and4_decodes(0xFE);
    lemma_4and4_decodes(track);
    lemma_4and4_decodes(sector);
    lemma_4and4_decodes(chk);
    assert(s.subrange(g + 22, g + 365) =~= enc);
}

/// A sector's stream reads back as a Disk II controller expects it: after
/// the gap of sync bytes comes the address prologue D5 AA 96; its four
/// 4-and-4 pairs decode to volume 254, the track, the sector and the
/// checksum volume ^ track ^ sector; then the epilogue DE AA EB, five sync
/// bytes, the data prologue D5 AA AD, a 6-and-2 field of 343 nibbles that
/// decodes to the sector's 256 bytes, the epilogue DE AA EB and one sync
/// byte.
#[verifier::spinoff_prover]
#[verifier::rlimit(60)]
pub proof fn lemma_sector_layout(track: u8, sector: u8, data: Seq<u8>)
    requires
        data.len() == 256,
    ensures
        ({
            let s = sector_nibbles(track, sector, data);
            let g = gap_len(track, sector);
            &&& s.len() == g + 369
            &&& forall|i: int| 0 <= i < g ==> s[i] == 0xFF
            &&& s[g] == 0xD5 && s[g + 1] == 0xAA && s[g + 2] == 0x96
            &&& decode_4and4(s[g + 3], s[g + 4]) == 0xFE
            &&& decode_4and4(s[g + 5], s[g + 6]) == track
            &&& decode_4and4(s[g + 7], s[g + 8]) == sector
            &&& decode_4and4(s[g + 9], s[g + 10]) == 0xFEu8 ^ track ^ sector
            &&& s[g + 11] == 0xDE && s[g + 12] == 0xAA && s[g + 13] == 0xEB
            &&& forall|i: int| g + 14 <= i < g + 19 ==> s[i] == 0xFF
            &&& s[g + 19] == 0xD5 && s[g + 20] == 0xAA && s[g + 21] == 0xAD
            &&& decode_six_and_two(s.subrange(g + 22, g + 365)) == Some(data)
            &&& s[g + 365] == 0xDE && s[g + 366] == 0xAA && s[g + 367] == 0xEB
            &&& s[g + 368] == 0xFF
        }),
{
    let enc = six_and_two(data);
    assert(enc.len() == 343);
    assert(sector_nibbles(track, sector, data) == framed_sector(track, sector, enc));
    lemma_framed_sector(track, sector, enc);
    lemma_six_and_two_roundtrip(data);
}

/// Nibblize one track of a .dsk image.
pub fn nibblize_track(raw: &[u8], track: usize) -> (out: Vec<u8>)
    requires
        track < TRACK_COUNT,
        raw@.len() >= sector_offset(track as int, 16),
    ensures
        out@ == track_nibbles(raw@, track as int),
        out@.len() == NIBBLE_TRACK_SIZE,
{
    let mut buf: Vec<u8> = Vec::with_capacity(NIBBLE_TRACK_SIZE);
    let mut phys: usize = 0;
    while phys < SECTORS_PER_TRACK
        invariant
            track < 35,
            raw@.len() >= sector_offset(track as int, 16),
            phys <= 16,
            buf@ == track_stream(raw@, track as int, phys as int),
        decreases 16 - phys,
    {
        let logical = dos33_sector_order(phys);
        let offset = (track * SECTORS_PER_TRACK + logical) * 256;
        let sector_data = &raw[offset..offset + 256];
        nibblize_sector(&mut buf, track as u8, phys as u8, sector_data);
        phys = phys + 1;
    }
    proof {
        lemma_track_stream_len(raw@, track as int, 16);
    }
    let ghost s = buf@;
    let n = buf.len();
    push_sync(&mut buf, NIBBLE_TRACK_SIZE - n);
    assert(buf@ =~= track_nibbles(raw@, track as int));
    buf
}

/// Nibblize an entire .dsk image (35 tracks of 16 sectors) into the
/// track-after-track nibble store `out`.
pub fn nibblize_disk(raw: &[u8], out: &mut Vec<u8>)
    requires
        raw@.len() >= DSK_SIZE,
        old(out)@.len() == TRACK_COUNT * NIBBLE_TRACK_SIZE,
    ensures
        final(out)@.len() == TRACK_COUNT * NIBBLE_TRACK_SIZE,
        forall|t: int, j: int| 0 <= t < 35 && 0 <= j < 6656 ==>
            #[trigger] final(out)@[t * 6656 + j] == track_nibbles(raw@, t)[j],
{
    let mut track: usize = 0;
    while track < TRACK_COUNT
        invariant
            raw@.len() >= DSK_SIZE,
            track <= 35,
            out@.len() == TRACK_COUNT * NIBBLE_TRACK_SIZE,
            forall|t: int, j: int| 0 <= t < track && 0 <= j < 6656 ==>
                #[trigger] out@[t * 6656 + j] == track_nibbles(raw@, t)[j],
        decreases 35 - track,
    {
        let nib = nibblize_track(raw, track);
        let base = track * NIBBLE_TRACK_SIZE;
        let mut j: usize = 0;
        while j < NIBBLE_TRACK_SIZE
            invariant
                track < 35,
                base == track * 6656,
                nib@ == track_nibbles(raw@, track as int),
                nib@.len() == 6656,
                j <= 6656,
                out@.len() == TRACK_COUNT * NIBBLE_TRACK_SIZE,
                forall|t: int, k: int| 0 <= t < track && 0 <= k < 6656 ==>
                    #[trigger] out@[t * 6656 + k] == track_nibbles(raw@, t)[k],
                forall|k: int| 0 <= k < j ==> #[trigger] out@[track * 6656 + k] == nib@[k],
            decreases 6656 - j,
        {
            out.set(base + j, nib[j]);
            j = j + 1;
        }
        track = track + 1;
    }
}

} // verus!

verus! {

use crate::error::Error;

/// Whether a full 343-byte data field, free of the 0xDE epilogue byte,
/// starts at `start` of a nibblized track.
pub open spec fn data_field_complete(nib: Seq<u8>, start: int) -> bool {
    &&& start + 343 <= NIBBLE_TRACK_SIZE
    &&& forall|k: int| start <= k < start + 343 ==> nib[k] != 0xDE
}

/// Whether the data field prologue D5 AA AD starts at `pos`.
pub open spec fn data_prologue_at(nib: Seq<u8>, pos: int) -> bool {
    &&& pos + 2 < NIBBLE_TRACK_SIZE
    &&& nib[pos] == 0xD5
    &&& nib[pos + 1] == 0xAA
    &&& nib[pos + 2] == 0xAD
}

/// `raw` with the 256 bytes at `offset` replaced by `data`.
pub open spec fn write_sector_bytes(raw: Seq<u8>, offset: int, data: Seq<u8>) -> Seq<u8> {
    Seq::new(raw.len(), |i: int| if offset <= i < offset + 256 { data[i - offset] } else { raw[i] })
}

/// Scan of a nibblized track from byte `pos`, with `phys` data fields
/// already found: each data prologue must be followed by a complete data
/// field that decodes; the n-th one found is physical sector n and is
/// stored at its DOS 3.3 logical place in `raw`. The scan succeeds when 16
/// sectors are found before the end of the track. Returns whether it
/// succeeded and the image with the sectors found up to where it stopped.
pub open spec fn scan_track(nib: Seq<u8>, pos: int, phys: int, raw: Seq<u8>, track: int) -> (bool, Seq<u8>)
    decreases 7000 - pos,
{
    if !(0 <= pos < NIBBLE_TRACK_SIZE && phys < 16) {
        (phys == 16, raw)
    } else if data_prologue_at(nib, pos) {
        let start = pos + 3;
        if !data_field_complete(nib, start) {
            (false, raw)
        } else {
            match decode_six_and_two(nib.subrange(start, start + 343)) {
                None => (false, raw),
                Some(d) => scan_track(nib, start + 344, phys + 1,
                    write_sector_bytes(raw, sector_offset(track, dos33_logical(phys)), d), track),
            }
        }
    } else {
        scan_track(nib, pos + 1, phys, raw, track)
    }
}

/// Decode a nibblized track back to raw sectors, using the DOS 3.3 sector
/// order to map physical to logical sectors.
pub fn decode_nibblized_track(nibble_track: &[u8], raw: &mut Vec<u8>, track: usize) -> (res: Result<(), Error>)
    requires
        nibble_track@.len() == NIBBLE_TRACK_SIZE,
        old(raw)@.len() == DSK_SIZE,
    ensures
        final(raw)@.len() == DSK_SIZE,
        track >= TRACK_COUNT ==> res == Err::<(), Error>(Error::DiskDecodeFailed { track }) && final(raw)@ == old(raw)@,
        track < TRACK_COUNT ==> ({
            let (ok, r) = scan_track(nibble_track@, 0, 0, old(raw)@, track as int);
            &&& final(raw)@ == r
            &&& ok ==> res is Ok
            &&& !ok ==> res == Err::<(), Error>(Error::DiskDecodeFailed { track })
        }),
{
    if track >= TRACK_COUNT {
        return Err(Error::DiskDecodeFailed { track });
    }
    let ghost nib = nibble_track@;
    let ghost goal = scan_track(nib, 0, 0, raw@, track as int);

    let mut pos: usize = 0;
    let mut phys: usize = 0;

    while pos < NIBBLE_TRACK_SIZE && phys < SECTORS_PER_TRACK
        invariant
            nib == nibble_track@,
            nib.len() == 6656,
            track < 35,
            pos <= 6700,
            phys <= 16,
            raw@.len() == DSK_SIZE,
            scan_track(nib, pos as int, phys as int, raw@, track as int) == goal,
            goal == scan_track(nibble_track@, 0, 0, old(raw)@, track as int),
        decreases 7000 - pos,
    {
        // Look for data field prologue: D5 AA AD
        if pos + 2 < NIBBLE_TRACK_SIZE
            && nibble_track[pos] == 0xD5
            && nibble_track[pos + 1] == 0xAA
            && nibble_track[pos + 2] == 0xAD
        {
            let ghost p0 = pos as int;
            assert(data_prologue_at(nib, p0));
            pos = pos + 3;
            let start = pos;

            let mut encoded: Vec<u8> = Vec::with_capacity(343);
            let mut encoded_len: usize = 0;
            let mut at_epilogue = false;
            let ghost r0 = raw@;

            while pos < NIBBLE_TRACK_SIZE && encoded_len < 343 && !at_epilogue
                invariant
                    nib == nibble_track@,
                    nib.len() == 6656,
                    start <= 6656,
                    pos == start + encoded_len,
                    pos <= 6656,
                    encoded_len <= 343,
                    encoded@.len() == encoded_len,
                    forall|k: int| 0 <= k < encoded_len ==> #[trigger] encoded@[k] == nib[start + k],
                    forall|k: int| start <= k < pos ==> #[trigger] nib[k] != 0xDE,
                    at_epilogue ==> pos < 6656 && nib[pos as int] == 0xDE,
                    raw@ == r0,
                decreases 343 - encoded_len + (if at_epilogue { 0int } else { 1int }),
            {
                let val = nibble_track[pos];
                if val == 0xDE {
                    at_epilogue = true;
                } else {
                    encoded.push(val);
                    encoded_len = encoded_len + 1;
                    pos = pos + 1;
                }
            }

            if encoded_len != 343 {
                assert(!data_field_complete(nib, start as int)) by {
                    if at_epilogue {
                        assert(nib[pos as int] == 0xDE);
                        assert(start <= pos < start + 343);
                    } else {
                        assert(pos >= 6656);
                    }
                }
                assert(scan_track(nib, p0, phys as int, raw@, track as int) == (false, raw@));
                return Err(Error::DiskDecodeFailed { track });
            }
            assert(data_field_complete(nib, start as int));
            assert(encoded@ =~= nib.subrange(start as int, start as int + 343));

            let data = match decode_6and2_sector(encoded.as_slice()) {
                Some(d) => d,
                None => {
                    return Err(Error::DiskDecodeFailed { track });
                },
            };

            // Map physical sector to logical sector using DOS 3.3 order.
            let logical_sector = dos33_sector_order(phys);
            let offset = (track * SECTORS_PER_TRACK + logical_sector) * 256;
            let ghost before = raw@;
            let mut k: usize = 0;
            while k < 256
                invariant
                    raw@.len() == DSK_SIZE,
                    offset + 256 <= DSK_SIZE,
                    k <= 256,
                    before.len() == DSK_SIZE,
                    forall|i: int| 0 <= i < DSK_SIZE ==> raw@[i] == (
                        if offset <= i < offset + k { data@[i - offset] } else { before[i] }),
                decreases 256 - k,
            {
                raw.set(offset + k, data[k]);
                k = k + 1;
            }
            assert(raw@ =~= write_sector_bytes(before, offset as int, data@));
            phys = phys + 1;
        }
        pos = pos + 1;
    }

    if phys != SECTORS_PER_TRACK {
        return Err(Error::DiskDecodeFailed { track });
    }

    Ok(())
}

} // verus!
