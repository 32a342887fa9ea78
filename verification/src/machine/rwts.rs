//! Fast disk: DOS 3.3 RWTS calls served directly from the disk image.
//!
//! At $B7B5, A and Y point at an I/O block (IOB) naming a drive, a track,
//! a sector, a buffer and a command. Seeks, reads and writes are carried
//! out on the image at once; the error code goes back into the IOB, the
//! carry tells success, and an RTS returns to the caller.

use vstd::prelude::*;
use crate::bus::{Bus, make_word};
use crate::cpu::Cpu;
use crate::cpu::status::{C, Flag, Status, with_flag};
use crate::disk::DiskII;
use crate::disk::image::{sector_read, sector_written};
use crate::error::Error;
use super::{AppleII, BusState, RWTS_IOB_DRIVE_OFFSET, RWTS_IOB_TRACK_OFFSET, RWTS_IOB_SECTOR_OFFSET,
    RWTS_IOB_BUFFER_LO_OFFSET, RWTS_IOB_BUFFER_HI_OFFSET, RWTS_IOB_COMMAND_OFFSET, RWTS_IOB_ERROR_OFFSET,
    RWTS_CMD_SEEK, RWTS_CMD_READ, RWTS_CMD_WRITE, RWTS_ERROR_OK, RWTS_ERROR_IO};
use super::bus_state::{bus_peek, bus_write};

verus! {

/// `v` wrapped to 16 bits.
pub open spec fn wrap16(v: int) -> u16 {
    (v % 0x10000) as u16
}

/// Address of the IOB: A low, Y high.
pub open spec fn iob_addr(c: Cpu) -> int {
    c.a + 256 * c.y
}

/// Byte `off` of the IOB at `iob`, seen without side effects.
pub open spec fn iob_byte(b: BusState, iob: int, off: int) -> u8 {
    bus_peek(b, wrap16(iob + off))
}

/// The drive an IOB names: drive numbers 0 and 1 mean drive 1, others
/// drive 2.
pub open spec fn iob_drive(b: BusState, iob: int) -> usize {
    if iob_byte(b, iob, 2) <= 1 { 0 } else { 1 }
}

/// The buffer address of an IOB.
pub open spec fn iob_buffer(b: BusState, iob: int) -> int {
    iob_byte(b, iob, 8) + 256 * iob_byte(b, iob, 9)
}

/// The CPU after an RTS: the return address is pulled from the stack of
/// bus `b` (without side effects) and the PC set one past it.
pub open spec fn rts_from(c: Cpu, b: BusState) -> Cpu {
    let lo = bus_peek(b, (0x0100 + (c.sp + 1) % 256) as u16);
    let hi = bus_peek(b, (0x0100 + (c.sp + 2) % 256) as u16);
    Cpu { sp: ((c.sp + 2) % 256) as u8, pc: ((hi * 256 + lo + 1) % 0x10000) as u16, ..c }
}

/// The CPU with the carry flag set to `v`.
pub open spec fn with_carry(c: Cpu, v: bool) -> Cpu {
    Cpu { p: Status(with_flag(c.p.0, Flag::C, v)), ..c }
}

/// The end of a served call: error code `code` stored into the IOB through
/// the bus, carry set to `carry`, and an RTS.
pub open spec fn trap_finished(mid: BusState, after: AppleII, c: Cpu, iob: int, code: u8, carry: bool) -> bool {
    &&& bus_write(mid, after.bus, wrap16(iob + 0x0D), code)
    &&& after.cpu == rts_from(with_carry(c, carry), after.bus)
}

/// `after` is `before` once `data` was written through the bus byte after
/// byte from `buf` on, the address wrapping at 64K.
pub open spec fn writes_chain(before: BusState, after: BusState, buf: int, data: Seq<u8>) -> bool {
    exists|states: Seq<BusState>| {
        &&& states.len() == data.len() + 1
        &&& states[0] == before
        &&& states[data.len() as int] == after
        &&& forall|i: int| 0 <= i < data.len() ==> #[trigger] bus_write(states[i], states[i + 1], wrap16(buf + i), data[i])
    }
}

/// The 256 bytes from `buf` on, seen without side effects.
pub open spec fn buffer_bytes(b: BusState, buf: int) -> Seq<u8> {
    Seq::new(256, |i: int| bus_peek(b, wrap16(buf + i)))
}

/// The bus with the head set on track `track`.
pub open spec fn head_on(b: BusState, track: u8) -> BusState {
    BusState { disk: DiskII { half_track: (track * 2) as u8, ..b.disk }, ..b }
}

/// Outcome of trying to serve the RWTS call of `before` (cycles charged,
/// or `None` to let the 6502 code run):
/// - seek (1) to a track on the disk: the head moves, OK, 50 cycles;
/// - read (2) of a sector the image holds: it is written into the buffer,
///   the head moves, OK, 100 cycles; else not served;
/// - write (3): the buffer's 256 bytes go into the image; on success the
///   head moves and OK is stored, else the I/O error $27 with carry set;
///   140 cycles;
/// - any other command, or a seek beyond the last track: not served.
pub open spec fn rwts_outcome(before: AppleII, after: AppleII, r: Option<u32>) -> bool {
    let c = before.cpu;
    let b = before.bus;
    let iob = iob_addr(c);
    let cmd = iob_byte(b, iob, 0x0C);
    let track = iob_byte(b, iob, 4);
    let sector = iob_byte(b, iob, 5);
    let buf = iob_buffer(b, iob);
    let d = iob_drive(b, iob);
    if cmd == 1 && track < 35 {
        r == Some(50u32) && trap_finished(head_on(b, track), after, c, iob, 0, false)
    } else if cmd == 2 && sector_read(b.disk, d as int, track as int, sector as int) is Some {
        let data = sector_read(b.disk, d as int, track as int, sector as int)->0;
        &&& r == Some(100u32)
        &&& exists|b1: BusState| #[trigger] writes_chain(b, b1, buf, data) && trap_finished(head_on(b1, track), after, c, iob, 0, false)
    } else if cmd == 3 {
        let data = buffer_bytes(b, buf);
        &&& r == Some(140u32)
        &&& exists|d1: DiskII, res: Result<(), Error>| #[trigger] sector_written(b.disk, d1, d, track, sector, data, res) && (
            match res {
                Ok(_) => trap_finished(head_on(BusState { disk: d1, ..b }, track), after, c, iob, 0, false),
                Err(_) => trap_finished(BusState { disk: d1, ..b }, after, c, iob, 0x27, true),
            })
    } else {
        r is None && after == before
    }
}

impl BusState {
    /// The 256 bytes from `buf` on, read without side effects.
    fn peek_buffer(&self, buf: u16) -> (data: [u8; 256])
        ensures
            data@ == buffer_bytes(*self, buf as int),
    {
        let mut data = [0u8; 256];
        let mut i: usize = 0;
        while i < 256
            invariant
                i <= 256,
                forall|k: int| 0 <= k < i ==> #[trigger] data@[k] == bus_peek(*self, wrap16(buf + k)),
            decreases 256 - i,
        {
            data[i] = self.peek(buf.wrapping_add(i as u16));
            i = i + 1;
        }
        assert(data@ =~= buffer_bytes(*self, buf as int));
        data
    }

    /// Write `data` through the bus from `buf` on.
    fn write_buffer(&mut self, buf: u16, data: &[u8; 256])
        requires
            old(self).wf(),
        ensures
            final(self).wf(),
            writes_chain(*old(self), *final(self), buf as int, data@),
    {
        let ghost mut states: Seq<BusState> = seq![*self];
        let mut i: usize = 0;
        while i < 256
            invariant
                i <= 256,
                states.len() == i + 1,
                states[0] == *old(self),
                states[i as int] == *self,
                self.wf(),
                forall|k: int| 0 <= k < i ==> #[trigger] bus_write(states[k], states[k + 1], wrap16(buf + k), data@[k]),
            decreases 256 - i,
        {
            self.write(buf.wrapping_add(i as u16), data[i]);
            proof {
                states = states.push(*self);
            }
            i = i + 1;
        }
        assert(writes_chain(*old(self), *self, buf as int, data@));
    }
}

impl AppleII {
    /// Finish a served call: store `code` into the IOB at `iob`, set the
    /// carry to `carry`, return.
    fn finish_trap(&mut self, iob: u16, code: u8, carry: bool)
        requires
            old(self).wf(),
        ensures
            final(self).wf(),
            trap_finished(old(self).bus, *final(self), old(self).cpu, iob as int, code, carry),
    {
        self.bus.write(iob.wrapping_add(RWTS_IOB_ERROR_OFFSET), code);
        self.cpu.p.set(C, carry);
        self.simulate_rts();
    }

    /// Serve a seek to `track`.
    fn rwts_seek(&mut self, iob: u16, track: u8) -> (r: u32)
        requires
            old(self).wf(),
            track < 35,
        ensures
            final(self).wf(),
            r == 50,
            trap_finished(head_on(old(self).bus, track), *final(self), old(self).cpu, iob as int, 0, false),
    {
        self.bus.disk.half_track = track * 2;
        self.finish_trap(iob, RWTS_ERROR_OK, false);
        50
    }

    /// Serve a read: `data` goes into the buffer at `buf`.
    fn rwts_read(&mut self, iob: u16, buf: u16, track: u8, data: &[u8; 256]) -> (r: u32)
        requires
            old(self).wf(),
            track < 35,
        ensures
            final(self).wf(),
            r == 100,
            exists|b1: BusState| #[trigger] writes_chain(old(self).bus, b1, buf as int, data@) && trap_finished(
                head_on(b1, track),
                *final(self),
                old(self).cpu,
                iob as int,
                0,
                false,
            ),
    {
        self.bus.write_buffer(buf, data);
        let ghost b1 = self.bus;
        self.bus.disk.half_track = track * 2;
        self.finish_trap(iob, RWTS_ERROR_OK, false);
        assert(writes_chain(old(self).bus, b1, buf as int, data@));
        100
    }

    /// Serve a write of the buffer at `buf` into the image.
    fn rwts_write(&mut self, iob: u16, buf: u16, drive: usize, track: u8, sector: u8) -> (r: u32)
        requires
            old(self).wf(),
        ensures
            final(self).wf(),
            r == 140,
            exists|d1: DiskII, res: Result<(), Error>| #[trigger] sector_written(
                old(self).bus.disk,
                d1,
                drive,
                track,
                sector,
                buffer_bytes(old(self).bus, buf as int),
                res,
            ) && (match res {
                Ok(_) => trap_finished(
                    head_on(BusState { disk: d1, ..old(self).bus }, track),
                    *final(self),
                    old(self).cpu,
                    iob as int,
                    0,
                    false,
                ),
                Err(_) => trap_finished(BusState { disk: d1, ..old(self).bus }, *final(self), old(self).cpu, iob as int, 0x27, true),
            }),
    {
        let data = self.bus.peek_buffer(buf);
        let res = self.bus.disk.write_sector_raw(drive, track, sector, &data);
        let ghost d1 = self.bus.disk;
        match res {
            Ok(()) => {
                self.bus.disk.half_track = track * 2;
                self.finish_trap(iob, RWTS_ERROR_OK, false);
            },
            Err(_) => {
                self.finish_trap(iob, RWTS_ERROR_IO, true);
            },
        }
        assert(sector_written(old(self).bus.disk, d1, drive, track, sector,
            buffer_bytes(old(self).bus, buf as int), res));
        140
    }

    /// Try to intercept RWTS at $B7B5: `Some(cycles)` when the call was
    /// served, `None` to fall through to the 6502 code. A seek to track 35
    /// or beyond is deliberately not served: it would put the head where
    /// the disk has no track, so the call is left to DOS's own code.
    pub fn try_rwts_trap(&mut self) -> (r: Option<u32>)
        requires
            old(self).wf(),
        ensures
            final(self).wf(),
            rwts_outcome(*old(self), *final(self), r),
    {
        // IOB pointer from A (lo) and Y (hi).
        let iob = make_word(self.cpu.a, self.cpu.y);
        // IOB fields, read without side effects.
        let command = self.bus.peek(iob.wrapping_add(RWTS_IOB_COMMAND_OFFSET));
        let track = self.bus.peek(iob.wrapping_add(RWTS_IOB_TRACK_OFFSET));
        let sector = self.bus.peek(iob.wrapping_add(RWTS_IOB_SECTOR_OFFSET));
        let buf_lo = self.bus.peek(iob.wrapping_add(RWTS_IOB_BUFFER_LO_OFFSET));
        let buf_hi = self.bus.peek(iob.wrapping_add(RWTS_IOB_BUFFER_HI_OFFSET));
        let buf_addr = make_word(buf_lo, buf_hi);
        let drive_num = self.bus.peek(iob.wrapping_add(RWTS_IOB_DRIVE_OFFSET));
        let drive_idx: usize = if drive_num <= 1 { 0 } else { 1 };
        assert(iob as int == iob_addr(self.cpu));
        assert(command == iob_byte(self.bus, iob as int, 0x0C));
        assert(track == iob_byte(self.bus, iob as int, 4));
        assert(sector == iob_byte(self.bus, iob as int, 5));
        assert(buf_addr == iob_buffer(self.bus, iob as int));
        assert(drive_idx == iob_drive(self.bus, iob as int));
        // A seek beyond the last track would leave the head where no track
        // lies, and every later nibble access would fall outside the disk;
        // such a call is left to the 6502 code.
        if command == RWTS_CMD_SEEK && track < 35 {
            Some(self.rwts_seek(iob, track))
        } else if command == RWTS_CMD_READ {
            match self.bus.disk.read_sector_raw(drive_idx, track, sector) {
                Some(data) => Some(self.rwts_read(iob, buf_addr, track, &data)),
                None => None,
            }
        } else if command == RWTS_CMD_WRITE {
            Some(self.rwts_write(iob, buf_addr, drive_idx, track, sector))
        } else {
            // Other commands, and seeks beyond the last track, are left to
            // the 6502 code.
            None
        }
    }

    /// Simulate an RTS: pull the return address from the stack (without
    /// side effects) and continue one byte past it.
    fn simulate_rts(&mut self)
        ensures
            *final(self) == (AppleII { cpu: rts_from(old(self).cpu, old(self).bus), ..*old(self) }),
    {
        let sp = self.cpu.sp;
        let lo_addr: u16 = 0x0100 + sp.wrapping_add(1) as u16;
        let hi_addr: u16 = 0x0100 + sp.wrapping_add(2) as u16;
        let lo = self.bus.peek(lo_addr);
        let hi = self.bus.peek(hi_addr);
        self.cpu.sp = sp.wrapping_add(2);
        self.cpu.pc = make_word(lo, hi).wrapping_add(1);
    }
}

} // verus!
