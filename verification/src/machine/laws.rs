//! Laws of the machine: the keyboard strobe and the fast-disk RWTS calls.

use vstd::prelude::*;
use crate::disk::DiskII;
use crate::disk::image::{sector_read, sector_written, lemma_sector_read_after_write};
use crate::error::Error;
use super::{AppleII, BusState};
use super::bus_state::{bus_read, bus_write};
use super::rwts::{rwts_outcome, iob_addr, iob_byte, iob_buffer, iob_drive, buffer_bytes, head_on, trap_finished, wrap16, writes_chain};

verus! {

/// The keyboard strobe: after a key press of the 7-bit code `k`, the latch
/// reads `k` with bit 7 set; touching $C010 clears the strobe, and the
/// latch then reads `k` alone.
pub proof fn lemma_keyboard_strobe(k: u8, b: BusState, b1: BusState, v1: u8, b2: BusState, v2: u8)
    requires
        k < 0x80,
        b.kbd_latch == k | 0x80,
        bus_read(b, b1, 0xC010, v1),
        bus_read(b1, b2, 0xC000, v2),
    ensures
        v1 == k + 0x80,
        v2 == k,
        b2 == b1,
{
    assert((k | 0x80) == k + 0x80 && (k | 0x80) % 128 == k) by (bit_vector)
        requires
            k < 0x80,
    ;
}

/// A served RWTS write reaches the image: when the call writes to a drive
/// holding a writable image, at a valid track and sector, and the IOB's
/// error byte lies outside the I/O space, reading that sector afterwards
/// gives back the 256 bytes of the buffer as they were at the call.
pub proof fn lemma_rwts_write_then_read(before: AppleII, after: AppleII, r: Option<u32>)
    requires
        before.wf(),
        rwts_outcome(before, after, r),
        ({
            let b = before.bus;
            let iob = iob_addr(before.cpu);
            let d = before.bus.disk.drive(iob_drive(b, iob) as int);
            let err = wrap16(iob + 0x0D);
            &&& iob_byte(b, iob, 0x0C) == 3
            &&& iob_byte(b, iob, 4) < 35
            &&& iob_byte(b, iob, 5) < 16
            &&& d.has_disk && !d.write_protected && d.raw_data is Some
            &&& !(0xC000 <= err < 0xD000)
        }),
    ensures
        ({
            let b = before.bus;
            let iob = iob_addr(before.cpu);
            &&& r == Some(140u32)
            &&& sector_read(
                after.bus.disk,
                iob_drive(b, iob) as int,
                iob_byte(b, iob, 4) as int,
                iob_byte(b, iob, 5) as int,
            ) == Some(buffer_bytes(b, iob_buffer(b, iob)))
        }),
{
    let b = before.bus;
    let iob = iob_addr(before.cpu);
    let drive = iob_drive(b, iob);
    let track = iob_byte(b, iob, 4);
    let sector = iob_byte(b, iob, 5);
    let data = buffer_bytes(b, iob_buffer(b, iob));
    let (d1, res) = choose|d1: DiskII, res: Result<(), Error>| #[trigger] sector_written(b.disk, d1, drive, track, sector, data, res) && (
        match res {
            Ok(_) => trap_finished(head_on(BusState { disk: d1, ..b }, track), after, before.cpu, iob, 0, false),
            Err(_) => trap_finished(BusState { disk: d1, ..b }, after, before.cpu, iob, 0x27, true),
        });
    assert(res is Ok);
    lemma_sector_read_after_write(b.disk, d1, drive, track, sector, data, res, 0, 0, 0);
    let mid = head_on(BusState { disk: d1, ..b }, track);
    assert(bus_write(mid, after.bus, wrap16(iob + 0x0D), 0));
    assert(after.bus.disk == mid.disk);
    assert(sector_read(after.bus.disk, drive as int, track as int, sector as int) == sector_read(
        d1,
        drive as int,
        track as int,
        sector as int,
    ));
}

/// Along a chain of RAM writes of `data` from `buf` on, the first `k`
/// bytes are in place after `k` writes.
proof fn lemma_chain_fills_ram(states: Seq<BusState>, buf: int, data: Seq<u8>, k: int)
    requires
        data.len() == 256,
        states.len() == 257,
        0 <= buf,
        buf + 256 <= 0xC000,
        forall|i: int| 0 <= i < 256 ==> #[trigger] bus_write(states[i], states[i + 1], wrap16(buf + i), data[i]),
        0 <= k <= 256,
    ensures
        forall|i: int| 0 <= i < k ==> #[trigger] states[k].ram@[buf + i] == data[i],
    decreases k,
{
    if k > 0 {
        lemma_chain_fills_ram(states, buf, data, k - 1);
        let j = k - 1;
        assert(bus_write(states[j], states[j + 1], wrap16(buf + j), data[j]));
        assert(wrap16(buf + j) == buf + j);
        assert forall|i: int| 0 <= i < k implies #[trigger] states[k].ram@[buf + i] == data[i] by {
            if i < k - 1 {
                assert(states[k - 1].ram@[buf + i] == data[i]);
            }
        }
    }
}

/// A served RWTS read fills the buffer: when the call reads a sector the
/// image holds into a buffer lying in RAM, and the IOB's error byte is not
/// inside that buffer, the buffer afterwards holds the sector's 256 bytes.
pub proof fn lemma_rwts_read_fills_buffer(before: AppleII, after: AppleII, r: Option<u32>)
    requires
        before.wf(),
        rwts_outcome(before, after, r),
        ({
            let b = before.bus;
            let iob = iob_addr(before.cpu);
            let buf = iob_buffer(b, iob);
            let err = wrap16(iob + 0x0D);
            &&& iob_byte(b, iob, 0x0C) == 2
            &&& sector_read(b.disk, iob_drive(b, iob) as int, iob_byte(b, iob, 4) as int, iob_byte(b, iob, 5) as int) is Some
            &&& buf + 256 <= 0xC000
            &&& !(buf <= err < buf + 256)
        }),
    ensures
        ({
            let b = before.bus;
            let iob = iob_addr(before.cpu);
            let buf = iob_buffer(b, iob);
            let data = sector_read(b.disk, iob_drive(b, iob) as int, iob_byte(b, iob, 4) as int, iob_byte(b, iob, 5) as int)->0;
            &&& r == Some(100u32)
            &&& forall|i: int| 0 <= i < 256 ==> #[trigger] after.bus.ram@[buf + i] == data[i]
        }),
{
    let b = before.bus;
    let iob = iob_addr(before.cpu);
    let buf = iob_buffer(b, iob);
    let track = iob_byte(b, iob, 4);
    let data = sector_read(b.disk, iob_drive(b, iob) as int, track as int, iob_byte(b, iob, 5) as int)->0;
    let b1 = choose|b1: BusState| #[trigger] writes_chain(b, b1, buf, data) && trap_finished(head_on(b1, track), after, before.cpu, iob, 0, false);
    let states = choose|states: Seq<BusState>| {
        &&& states.len() == data.len() + 1
        &&& states[0] == b
        &&& states[data.len() as int] == b1
        &&& forall|i: int| 0 <= i < data.len() ==> #[trigger] bus_write(states[i], states[i + 1], wrap16(buf + i), data[i])
    };
    lemma_chain_fills_ram(states, buf, data, 256);
    let mid = head_on(b1, track);
    assert(bus_write(mid, after.bus, wrap16(iob + 0x0D), 0));
    assert forall|i: int| 0 <= i < 256 implies #[trigger] after.bus.ram@[buf + i] == data[i] by {
        assert(states[256].ram@[buf + i] == data[i]);
    }
}

} // verus!
