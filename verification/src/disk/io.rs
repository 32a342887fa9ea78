//! The controller's soft switches at $C0E0-$C0EF: stepper phases, motor,
//! drive select, the Q6/Q7 latches and the data register.

use vstd::prelude::*;
use crate::error::Error;
use super::DiskII;
use super::drive::{nibble_read, nibble_written, sync_result};
use super::image::{disk_sync_result, disk_synced};

verus! {

/// Head movement, in half tracks, when `phase` is energised while the head
/// rests over phase `cur` (the half track modulo 4).
pub open spec fn phase_delta(cur: int, phase: int) -> int {
    if cur == 0 {
        if phase == 0 { 0 } else if phase == 1 { 1 } else if phase == 2 { 2 } else { -1 }
    } else if cur == 1 {
        if phase == 0 { -1 } else if phase == 1 { 0 } else if phase == 2 { 1 } else { 2 }
    } else if cur == 2 {
        if phase == 0 { -2 } else if phase == 1 { -1 } else if phase == 2 { 0 } else { 1 }
    } else {
        if phase == 0 { 1 } else if phase == 1 { -2 } else if phase == 2 { -1 } else { 0 }
    }
}

/// Half track reached from `half_track` when `phase` is energised, kept
/// within the 35 tracks (half tracks 0 to 69).
pub open spec fn stepped_half_track(half_track: int, phase: int) -> int {
    let next = half_track + phase_delta(half_track % 4, phase);
    if next < 0 { 0 } else if next > 69 { 69 } else { next }
}

/// The controller after phase `phase` was switched `on`: the head steps
/// only when a phase is energised while the motor runs.
pub open spec fn phase_set(before: DiskII, after: DiskII, phase: int, on: bool) -> bool {
    &&& after.phases@ == before.phases@.update(phase, on)
    &&& after.half_track == (if on && before.motor_on {
            stepped_half_track(before.half_track as int, phase)
        } else {
            before.half_track as int
        })
    &&& after == DiskII { phases: after.phases, half_track: after.half_track, ..before }
}

/// The deferred error after a write-back of drive `drive`, before its own
/// failure is recorded.
pub open spec fn error_after_sync(before: DiskII, drive: int) -> Option<Error> {
    if sync_result(before.drive(drive)) == Ok::<bool, Error>(true) {
        None
    } else {
        before.last_error
    }
}

/// Motor off: with the motor running, the selected drive's written nibbles
/// are decoded into its image first and a failure is kept as the deferred
/// error; the data register is emptied.
pub open spec fn motor_stopped(before: DiskII, after: DiskII) -> bool {
    let sel = before.selected_drive as int;
    &&& !after.motor_on
    &&& !after.data_ready
    &&& if before.motor_on {
        &&& disk_synced(
            before,
            DiskII {
                motor_on: before.motor_on,
                data_ready: before.data_ready,
                last_error: error_after_sync(before, sel),
                ..after
            },
            sel,
        )
        &&& after.last_error == (match disk_sync_result(before, sel) {
            Err(e) => Some(e),
            Ok(_) => error_after_sync(before, sel),
        })
    } else {
        after == DiskII { motor_on: false, data_ready: false, ..before }
    }
}

/// The controller after soft switch `s` (0 to 15) was touched.
pub open spec fn switched(before: DiskII, after: DiskII, s: int) -> bool {
    if s < 8 {
        phase_set(before, after, s / 2, s % 2 == 1)
    } else if s == 8 {
        motor_stopped(before, after)
    } else if s == 9 {
        after == DiskII { motor_on: true, ..before }
    } else if s == 10 {
        after == DiskII { selected_drive: 0, ..before }
    } else if s == 11 {
        after == DiskII { selected_drive: 1, ..before }
    } else if s == 12 {
        after == DiskII { q6: false, ..before }
    } else if s == 13 {
        after == DiskII { q6: true, ..before }
    } else if s == 14 {
        after == DiskII { q7: false, ..before }
    } else {
        after == DiskII { q7: true, ..before }
    }
}

/// The controller after the data register was read (`out`): in write mode
/// (Q7) it reads 0; with Q6 it is the status register, write protection in
/// bit 7; else it delivers the latch, loading the next nibble first when
/// the latch is empty and a turning disk is in, and bit 7 is set only for
/// a fresh nibble. The latch is empty afterwards.
pub open spec fn register_read(mid: DiskII, after: DiskII, out: u8) -> bool {
    let sel = mid.selected_drive as int;
    if mid.q7 {
        out == 0 && after == mid
    } else if mid.q6 {
        out == (if mid.drive(sel).write_protected { 0x80u8 } else { 0u8 }) && after == mid
    } else if !mid.data_ready && mid.motor_on && mid.drive(sel).has_disk {
        &&& nibble_read(mid.drive(sel), after.drive(sel), mid.half_track as int / 2, out)
        &&& after.drive(1 - sel) == mid.drive(1 - sel)
        &&& after == DiskII {
            drive0: after.drive0,
            drive1: after.drive1,
            read_latch: out,
            data_ready: false,
            ..mid
        }
    } else {
        &&& out == (if mid.data_ready { mid.read_latch } else { (mid.read_latch % 128) as u8 })
        &&& after == DiskII { data_ready: false, ..mid }
    }
}

/// The controller after `val` was written to the data register: only in
/// write mode (Q6 and Q7) is it latched and written under the head.
pub open spec fn register_written(mid: DiskII, after: DiskII, val: u8) -> bool {
    let sel = mid.selected_drive as int;
    if mid.q6 && mid.q7 {
        &&& nibble_written(mid.drive(sel), after.drive(sel), mid.half_track as int / 2, val, mid.motor_on)
        &&& after.drive(1 - sel) == mid.drive(1 - sel)
        &&& after == DiskII { drive0: after.drive0, drive1: after.drive1, write_latch: val, ..mid }
    } else {
        after == mid
    }
}

/// The controller after an I/O read at `addr` that returned `out`: the
/// switch of the low four address bits touched, then the register read.
pub open spec fn io_read_done(before: DiskII, after: DiskII, addr: u16, out: u8) -> bool {
    exists|mid: DiskII| switched(before, mid, addr as int % 16) && mid.wf() && #[trigger] register_read(mid, after, out)
}

/// The controller after an I/O write of `val` at `addr`: the switch
/// touched, then the data register written.
pub open spec fn io_write_done(before: DiskII, after: DiskII, addr: u16, val: u8) -> bool {
    exists|mid: DiskII| switched(before, mid, addr as int % 16) && mid.wf() && #[trigger] register_written(mid, after, val)
}

/// Head step for energising `phase` over phase `cur`.
fn phase_step(cur: u8, phase: usize) -> (d: i16)
    requires
        cur < 4,
        phase < 4,
    ensures
        d == phase_delta(cur as int, phase as int),
{
    match (cur, phase) {
        (0, 0) => 0, (0, 1) => 1, (0, 2) => 2, (0, _) => -1,
        (1, 0) => -1, (1, 1) => 0, (1, 2) => 1, (1, _) => 2,
        (2, 0) => -2, (2, 1) => -1, (2, 2) => 0, (2, _) => 1,
        (_, 0) => 1, (_, 1) => -2, (_, 2) => -1, (_, _) => 0,
    }
}

impl DiskII {
    /// Stepper motor phase control.
    pub fn set_phase(&mut self, phase: usize, on: bool)
        requires
            old(self).wf(),
            phase < 4,
        ensures
            final(self).wf(),
            phase_set(*old(self), *final(self), phase as int, on),
    {
        self.phases[phase] = on;
        if !on || !self.motor_on {
            return;
        }
        let delta = phase_step(self.half_track % 4, phase);
        let next: i16 = self.half_track as i16 + delta;
        let clamped: i16 = if next < 0 { 0 } else if next > 69 { 69 } else { next };
        self.half_track = clamped as u8;
    }

    /// Process a soft-switch toggle (the low four address bits).
    pub fn handle_switch(&mut self, switch: u8)
        requires
            old(self).wf(),
            switch < 16,
        ensures
            final(self).wf(),
            switched(*old(self), *final(self), switch as int),
    {
        match switch {
            0 => self.set_phase(0, false),
            1 => self.set_phase(0, true),
            2 => self.set_phase(1, false),
            3 => self.set_phase(1, true),
            4 => self.set_phase(2, false),
            5 => self.set_phase(2, true),
            6 => self.set_phase(3, false),
            7 => self.set_phase(3, true),
            8 => {
                if self.motor_on {
                    let sel = self.selected_drive;
                    let r = self.sync_nibble_to_raw(sel);
                    if let Err(e) = r {
                        self.last_error = Some(e);
                    }
                }
                self.motor_on = false;
                self.data_ready = false;
            },
            9 => self.motor_on = true,
            10 => self.selected_drive = 0,
            11 => self.selected_drive = 1,
            12 => self.q6 = false,
            13 => self.q6 = true,
            14 => self.q7 = false,
            _ => self.q7 = true,
        }
    }

    /// Read one nibble under the head of the selected drive, on the track
    /// under the head, and advance rotation (0 without a disk).
    pub fn read_nibble(&mut self) -> (val: u8)
        requires
            old(self).wf(),
        ensures
            final(self).wf(),
            nibble_read(
                old(self).drive(old(self).selected_drive as int),
                final(self).drive(old(self).selected_drive as int),
                old(self).half_track as int / 2,
                val,
            ),
            final(self).drive(1 - old(self).selected_drive as int) == old(self).drive(
                1 - old(self).selected_drive as int,
            ),
            *final(self) == (DiskII { drive0: final(self).drive0, drive1: final(self).drive1, ..*old(self) }),
    {
        let track = (self.half_track / 2) as usize;
        if self.selected_drive == 0 {
            self.drive0.read_nibble(track)
        } else {
            self.drive1.read_nibble(track)
        }
    }

    /// Write one nibble under the head of the selected drive and advance
    /// rotation, when a writable disk is in and the motor runs.
    pub fn write_nibble(&mut self, val: u8)
        requires
            old(self).wf(),
        ensures
            final(self).wf(),
            nibble_written(
                old(self).drive(old(self).selected_drive as int),
                final(self).drive(old(self).selected_drive as int),
                old(self).half_track as int / 2,
                val,
                old(self).motor_on,
            ),
            final(self).drive(1 - old(self).selected_drive as int) == old(self).drive(
                1 - old(self).selected_drive as int,
            ),
            *final(self) == (DiskII { drive0: final(self).drive0, drive1: final(self).drive1, ..*old(self) }),
    {
        let track = (self.half_track / 2) as usize;
        let motor = self.motor_on;
        if self.selected_drive == 0 {
            self.drive0.write_nibble(track, val, motor)
        } else {
            self.drive1.write_nibble(track, val, motor)
        }
    }

    /// Handle an I/O read at $C0E0-$C0EF: touch the switch, then read the
    /// register that Q6/Q7 select.
    pub fn io_read(&mut self, addr: u16) -> (out: u8)
        requires
            old(self).wf(),
        ensures
            final(self).wf(),
            io_read_done(*old(self), *final(self), addr, out),
    {
        self.handle_switch((addr % 16) as u8);
        let ghost mid = *self;
        let out = if self.q7 {
            0
        } else if self.q6 {
            let wp = if self.selected_drive == 0 {
                self.drive0.write_protected
            } else {
                self.drive1.write_protected
            };
            if wp { 0x80 } else { 0 }
        } else {
            let has_disk = if self.selected_drive == 0 { self.drive0.has_disk } else { self.drive1.has_disk };
            if !self.data_ready && self.motor_on && has_disk {
                self.read_latch = self.read_nibble();
                self.data_ready = true;
            }
            let o = if self.data_ready { self.read_latch } else { self.read_latch % 128 };
            self.data_ready = false;
            o
        };
        assert(register_read(mid, *self, out));
        out
    }

    /// Handle an I/O write at $C0E0-$C0EF: touch the switch, then in write
    /// mode latch the value and write it under the head.
    pub fn io_write(&mut self, addr: u16, val: u8)
        requires
            old(self).wf(),
        ensures
            final(self).wf(),
            io_write_done(*old(self), *final(self), addr, val),
    {
        self.handle_switch((addr % 16) as u8);
        let ghost mid = *self;
        if self.q6 && self.q7 {
            self.write_latch = val;
            self.write_nibble(val);
        }
        assert(register_written(mid, *self, val));
    }
}

} // verus!
