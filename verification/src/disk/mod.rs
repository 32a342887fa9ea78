//! Disk II controller for slot 6: two drives, the stepper motor, the Q6/Q7
//! latches and the nibble codec.

pub mod codec;
pub mod drive;
pub mod image;
pub mod io;
pub mod roundtrip;

use vstd::prelude::*;
use crate::error::Error;
use drive::Drive;

verus! {

/// Disk II controller for slot 6.
pub struct DiskII {
    pub drive0: Drive,
    pub drive1: Drive,
    /// Selected drive: 0 or 1.
    pub selected_drive: usize,
    /// Head position in half tracks (0..=69).
    pub half_track: u8,
    pub phases: [bool; 4],
    pub motor_on: bool,
    pub q6: bool,
    pub q7: bool,
    pub read_latch: u8,
    pub data_ready: bool,
    pub write_latch: u8,
    pub slot_rom: [u8; 256],
    pub slot_rom_loaded: bool,
    /// Error of a write-back triggered by a soft switch, kept for the frontend.
    pub last_error: Option<Error>,
}

/// Two controller states that differ at most in the slot ROM.
pub open spec fn same_but_rom(a: DiskII, b: DiskII) -> bool {
    DiskII { slot_rom: b.slot_rom, slot_rom_loaded: b.slot_rom_loaded, ..a } == b
}

impl DiskII {
    /// Drive `i` (0 or 1).
    pub open spec fn drive(&self, i: int) -> Drive {
        if i == 0 { self.drive0 } else { self.drive1 }
    }

    /// Well-formedness: both drives well formed, a drive selected, the head
    /// on one of the 35 tracks.
    pub open spec fn wf(&self) -> bool {
        &&& self.drive0.wf()
        &&& self.drive1.wf()
        &&& self.selected_drive < 2
        &&& self.half_track <= 69
    }

    /// Whether the controller is well formed (see `wf`).
    pub fn is_well_formed(&self) -> (r: bool)
        ensures
            r == self.wf(),
    {
        self.drive0.is_well_formed() && self.drive1.is_well_formed() && self.selected_drive < 2
            && self.half_track <= 69
    }

    /// Power-on state: no disks, motor off, head at track 0, drive 1 selected.
    pub fn new() -> (d: Self)
        ensures
            d.wf(),
            d.selected_drive == 0,
            d.half_track == 0,
            !d.motor_on && !d.q6 && !d.q7 && !d.data_ready,
            d.read_latch == 0 && d.write_latch == 0,
            !d.slot_rom_loaded,
            d.last_error is None,
            !d.drive0.has_disk && !d.drive1.has_disk,
            d.drive0.raw_data is None && d.drive1.raw_data is None,
            !d.drive0.dirty && !d.drive1.dirty,
            forall|t: int| 0 <= t < 35 ==> !d.drive0.dirty_tracks@[t] && !d.drive1.dirty_tracks@[t],
            d.drive0.byte_position == 0 && d.drive1.byte_position == 0,
            d.phases@ == seq![false, false, false, false],
            forall|i: int| 0 <= i < 256 ==> #[trigger] d.slot_rom@[i] == 0,
    {
        let d = DiskII {
            drive0: Drive::new(),
            drive1: Drive::new(),
            selected_drive: 0,
            half_track: 0,
            phases: [false; 4],
            motor_on: false,
            q6: false,
            q7: false,
            read_latch: 0,
            data_ready: false,
            write_latch: 0,
            slot_rom: [0; 256],
            slot_rom_loaded: false,
            last_error: None,
        };
        assert(d.phases@ =~= seq![false, false, false, false]);
        d
    }

    /// Load slot ROM bytes (256 bytes for $C600-$C6FF); a shorter slice
    /// replaces only the first bytes.
    pub fn load_slot_rom(&mut self, data: &[u8])
        ensures
            final(self).slot_rom_loaded,
            forall|i: int| 0 <= i < 256 ==> #[trigger] final(self).slot_rom@[i] == (
                if i < data@.len() { data@[i] } else { old(self).slot_rom@[i] }),
            final(self).drive0 == old(self).drive0,
            final(self).drive1 == old(self).drive1,
            final(self).selected_drive == old(self).selected_drive,
            final(self).half_track == old(self).half_track,
            final(self).motor_on == old(self).motor_on,
            final(self).last_error == old(self).last_error,
    {
        let len = if data.len() < 256 { data.len() } else { 256 };
        let ghost rom0 = self.slot_rom@;
        let mut i: usize = 0;
        while i < len
            invariant
                len <= 256,
                len <= data@.len(),
                len == (if data@.len() < 256 { data@.len() } else { 256 }),
                rom0.len() == 256,
                same_but_rom(*old(self), *self),
                i <= len,
                forall|k: int| 0 <= k < 256 ==> #[trigger] self.slot_rom@[k] == (
                    if k < i { data@[k] } else { rom0[k] }),
            decreases len - i,
        {
            self.slot_rom[i] = data[i];
            i = i + 1;
        }
        self.slot_rom_loaded = true;
    }

    /// Clear slot ROM data (for 12K ROM mode).
    pub fn clear_slot_rom(&mut self)
        ensures
            !final(self).slot_rom_loaded,
            forall|i: int| 0 <= i < 256 ==> #[trigger] final(self).slot_rom@[i] == 0,
            final(self).drive0 == old(self).drive0,
            final(self).drive1 == old(self).drive1,
            final(self).selected_drive == old(self).selected_drive,
            final(self).half_track == old(self).half_track,
            final(self).motor_on == old(self).motor_on,
            final(self).last_error == old(self).last_error,
    {
        let mut i: usize = 0;
        while i < 256
            invariant
                i <= 256,
                same_but_rom(*old(self), *self),
                forall|k: int| 0 <= k < i ==> #[trigger] self.slot_rom@[k] == 0,
            decreases 256 - i,
        {
            self.slot_rom[i] = 0;
            i = i + 1;
        }
        self.slot_rom_loaded = false;
    }

    /// Read from the slot ROM area ($C600-$C6FF): the byte at the low 8
    /// address bits when a ROM is loaded, else 0.
    pub fn read_slot_rom(&self, addr: u16) -> (val: u8)
        ensures
            val == (if self.slot_rom_loaded { self.slot_rom@[addr as int % 256] } else { 0 }),
    {
        if self.slot_rom_loaded {
            self.slot_rom[(addr % 256) as usize]
        } else {
            0
        }
    }

    /// Tick hook for cycle-accurate disk timing; the controller has no
    /// timed behaviour, so nothing changes.
    pub fn tick(&mut self, cycles: u32)
        ensures
            *final(self) == *old(self),
    {
    }

    /// Return and clear the last deferred disk error.
    pub fn take_last_error(&mut self) -> (e: Option<Error>)
        ensures
            e == old(self).last_error,
            *final(self) == (DiskII { last_error: None, ..*old(self) }),
    {
        self.last_error.take()
    }
}

impl Default for DiskII {
    /// The power-on controller (see `new`).
    fn default() -> (d: Self)
        ensures
            d.wf(),
            d.selected_drive == 0,
            d.half_track == 0,
            !d.motor_on && !d.q6 && !d.q7 && !d.data_ready,
            !d.slot_rom_loaded,
            d.last_error is None,
            !d.drive0.has_disk && !d.drive1.has_disk,
    {
        DiskII::new()
    }
}

} // verus!
