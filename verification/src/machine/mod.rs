//! The Apple II machine: the CPU and the bus that holds RAM, ROM, the
//! keyboard latch, the display switches, the Disk II controller and the
//! speaker.
//!
//! Memory map:
//!   $0000-$BFFF  48K RAM
//!   $C000-$C00F  Keyboard latch (bit 7 = strobe)
//!   $C010        Keyboard strobe clear (read or write clears bit 7)
//!   $C030        Speaker toggle
//!   $C050-$C057  Display mode soft switches
//!   $C0E0-$C0EF  Disk II I/O (slot 6)
//!   $C600-$C6FF  Disk II slot ROM
//!   other $C0xx-$CFxx  I/O and slot stubs (read 0)
//!   $D000-$FFFF  12K ROM

pub mod bus_state;
pub mod laws;
pub mod runtime;
pub mod rwts;

use vstd::prelude::*;
use crate::bus::{Bus, make_word};
use crate::cpu::{Cpu, reset_state};
use crate::disk::DiskII;
use crate::disk::image::{disk_sync_result, disk_synced};
use crate::error::Error;
use crate::video::DisplayMode;
use bus_state::{bus_peek, bus_read, bus_write};

verus! {

/// Entry point of DOS 3.3 RWTS, trapped in fast-disk mode.
pub const RWTS_ENTRY_PC: u16 = 0xB7B5;
pub const RWTS_IOB_DRIVE_OFFSET: u16 = 0x02;
pub const RWTS_IOB_TRACK_OFFSET: u16 = 0x04;
pub const RWTS_IOB_SECTOR_OFFSET: u16 = 0x05;
pub const RWTS_IOB_BUFFER_LO_OFFSET: u16 = 0x08;
pub const RWTS_IOB_BUFFER_HI_OFFSET: u16 = 0x09;
pub const RWTS_IOB_COMMAND_OFFSET: u16 = 0x0C;
pub const RWTS_IOB_ERROR_OFFSET: u16 = 0x0D;
pub const RWTS_CMD_SEEK: u8 = 0x01;
pub const RWTS_CMD_READ: u8 = 0x02;
pub const RWTS_CMD_WRITE: u8 = 0x03;
pub const RWTS_ERROR_OK: u8 = 0x00;
pub const RWTS_ERROR_IO: u8 = 0x27;

/// Bus state: RAM, ROM, keyboard, display, disk and speaker.
pub struct BusState {
    pub display: DisplayMode,
    pub disk: DiskII,
    /// CPU cycles at which the speaker was toggled ($C030), oldest first,
    /// not yet taken by the audio synthesiser.
    pub speaker_toggles: Vec<u64>,
    /// Cycle count at the start of the current instruction.
    pub bus_cycle: u64,
    /// Whether slot 6 holds the Disk II controller.
    pub disk_controller_enabled: bool,
    /// Whether DOS RWTS calls are served directly (fast disk).
    pub fast_disk: bool,
    /// 48K RAM.
    pub ram: [u8; 0xC000],
    /// 12K ROM at $D000-$FFFF.
    pub rom: [u8; 0x3000],
    pub rom_loaded: bool,
    /// $C000: last key, bit 7 the strobe.
    pub kbd_latch: u8,
    /// Set on writes to video memory and on display switches.
    pub video_dirty: bool,
    /// Counts display mode switch accesses, modulo 256.
    pub display_mode_gen: u8,
}

/// Apple II emulator: CPU and bus.
pub struct AppleII {
    pub cpu: Cpu,
    pub bus: BusState,
}

impl BusState {
    /// Well-formedness: that of the disk controller.
    pub open spec fn wf(&self) -> bool {
        self.disk.wf()
    }
}

impl AppleII {
    /// Well-formedness: that of the bus.
    pub open spec fn wf(&self) -> bool {
        self.bus.wf()
    }

    /// Power-on machine.
    pub fn new() -> (m: Self)
        ensures
            m.wf(),
            m.cpu.a == 0 && m.cpu.x == 0 && m.cpu.y == 0 && m.cpu.sp == 0xFD && m.cpu.pc == 0,
            m.cpu.cycles == 0,
            m.bus.speaker_toggles@.len() == 0,
            !m.bus.disk_controller_enabled && !m.bus.fast_disk && !m.bus.rom_loaded,
            m.bus.kbd_latch == 0,
    {
        AppleII { cpu: Cpu::new(), bus: BusState::new() }
    }

    /// The display mode.
    pub fn display_mode(&self) -> (d: &DisplayMode)
        ensures
            *d == self.bus.display,
    {
        &self.bus.display
    }

    /// The disk controller.
    pub fn disk(&self) -> (d: &DiskII)
        ensures
            *d == self.bus.disk,
    {
        &self.bus.disk
    }

    /// The disk controller, to change.
    pub fn disk_mut(&mut self) -> (d: &mut DiskII)
        ensures
            *d == old(self).bus.disk,
            *final(self) == (AppleII { bus: BusState { disk: *final(d), ..old(self).bus }, ..*old(self) }),
    {
        &mut self.bus.disk
    }

    /// Whether video memory or the display mode changed since the last
    /// render.
    pub fn is_video_dirty(&self) -> (r: bool)
        ensures
            r == self.bus.video_dirty,
    {
        self.bus.video_dirty
    }

    /// Mark the video as rendered.
    pub fn clear_video_dirty(&mut self)
        ensures
            *final(self) == (AppleII { bus: BusState { video_dirty: false, ..old(self).bus }, ..*old(self) }),
    {
        self.bus.video_dirty = false;
    }

    /// Write back the nibble data of both drives into their images (see
    /// `DiskII::flush_all_drives`).
    pub fn flush_all_drives(&mut self) -> (res: Result<(), Error>)
        requires
            old(self).wf(),
        ensures
            final(self).wf(),
            final(self).cpu == old(self).cpu,
            *final(self) == (AppleII { bus: BusState { disk: final(self).bus.disk, ..old(self).bus }, ..*old(self) }),
            ({
                let r0 = disk_sync_result(old(self).bus.disk, 0);
                r0 is Err ==> res == r0 && disk_synced(old(self).bus.disk, final(self).bus.disk, 0)
            }),
            disk_sync_result(old(self).bus.disk, 0) is Ok ==> exists|mid: DiskII| {
                &&& disk_synced(old(self).bus.disk, mid, 0)
                &&& res == disk_sync_result(mid, 1)
                &&& #[trigger] disk_synced(mid, final(self).bus.disk, 1)
            },
    {
        self.bus.disk.flush_all_drives()
    }

    /// Load ROM data: 12K ($3000 bytes) maps to $D000-$FFFF and the slot
    /// ROM is cleared; a 20K ($5000 bytes, $B000-$FFFF) image maps its
    /// last 12K to $D000-$FFFF and gives the Disk II slot ROM from offset
    /// $1600. Other sizes are refused and change nothing.
    pub fn load_rom_data(&mut self, data: &[u8]) -> (res: Result<(), Error>)
        requires
            old(self).wf(),
        ensures
            final(self).wf(),
            final(self).cpu == old(self).cpu,
            data@.len() != 0x3000 && data@.len() != 0x5000 ==> res == Err::<(), Error>(
                Error::UnsupportedRomSize { actual: data@.len() as usize },
            ) && *final(self) == *old(self),
            data@.len() == 0x3000 ==> {
                &&& res is Ok
                &&& final(self).bus.rom@ == data@
                &&& final(self).bus.rom_loaded
                &&& !final(self).bus.disk.slot_rom_loaded
                &&& forall|i: int| 0 <= i < 256 ==> #[trigger] final(self).bus.disk.slot_rom@[i] == 0
            },
            data@.len() == 0x5000 ==> {
                &&& res is Ok
                &&& final(self).bus.rom@ == data@.subrange(0x2000, 0x5000)
                &&& final(self).bus.rom_loaded
                &&& final(self).bus.disk.slot_rom_loaded
                &&& final(self).bus.disk.slot_rom@ == data@.subrange(0x1600, 0x1700)
            },
            final(self).bus.ram == old(self).bus.ram,
            final(self).bus.disk.drive0 == old(self).bus.disk.drive0,
            final(self).bus.disk.drive1 == old(self).bus.disk.drive1,
    {
        let len = data.len();
        if len != 0x3000 && len != 0x5000 {
            return Err(Error::UnsupportedRomSize { actual: len });
        }
        let start: usize = if len == 0x3000 { 0 } else { 0x2000 };
        let mut i: usize = 0;
        while i < 0x3000
            invariant
                i <= 0x3000,
                len == data@.len(),
                start + 0x3000 == len,
                self.cpu == old(self).cpu,
                self.bus.disk == old(self).bus.disk,
                self.bus.ram == old(self).bus.ram,
                self.wf(),
                forall|k: int| 0 <= k < i ==> #[trigger] self.bus.rom@[k] == data@[start + k],
            decreases 0x3000 - i,
        {
            self.bus.rom[i] = data[start + i];
            i = i + 1;
        }
        if len == 0x3000 {
            self.bus.disk.clear_slot_rom();
        } else {
            let slot = vstd::slice::slice_subrange(data, 0x1600, 0x1700);
            self.bus.disk.load_slot_rom(slot);
            assert(self.bus.disk.slot_rom@ =~= data@.subrange(0x1600, 0x1700));
        }
        self.bus.rom_loaded = true;
        assert(self.bus.rom@ =~= data@.subrange(start as int, len as int));
        Ok(())
    }

    /// Reset the CPU (it reads the reset vector at $FFFC-$FFFD) and drop the
    /// recorded speaker toggles.
    pub fn reset(&mut self)
        requires
            old(self).wf(),
        ensures
            final(self).wf(),
            final(self).bus.speaker_toggles@.len() == 0,
            final(self).cpu == reset_state(
                old(self).cpu,
                (bus_peek(old(self).bus, 0xFFFC) as int + 256 * bus_peek(old(self).bus, 0xFFFD) as int) as u16,
            ),
            final(self).bus == (BusState { speaker_toggles: final(self).bus.speaker_toggles, ..old(self).bus }),
    {
        // The vector lies in ROM: reading it has no side effects, so it is
        // peeked.
        let vector = make_word(self.bus.peek(0xFFFC), self.bus.peek(0xFFFD));
        self.cpu.reset_to(vector);
        self.bus.speaker_toggles = Vec::new();
    }

    /// Simulate a key press: the latch holds the 7-bit ASCII code with the
    /// strobe (bit 7) set.
    pub fn key_press(&mut self, ascii: u8)
        ensures
            *final(self) == (AppleII { bus: BusState { kbd_latch: ascii | 0x80, ..old(self).bus }, ..*old(self) }),
    {
        self.bus.kbd_latch = ascii | 0x80;
    }

    /// Insert a .dsk image into drive `drive` (0 or 1), with slot 6
    /// holding the controller (see `DiskII::load_disk_bytes`).
    pub fn load_disk_bytes_into_drive(&mut self, data: &[u8], drive: usize, write_protected: bool) -> (res: Result<(), Error>)
        requires
            old(self).wf(),
        ensures
            final(self).wf(),
            final(self).bus.disk_controller_enabled,
            final(self).cpu == old(self).cpu,
            drive >= 2 ==> res == Err::<(), Error>(Error::InvalidDiskLocation { drive, track: 0, sector: 0 }),
            drive < 2 && data@.len() != 0x23000 ==> res == Err::<(), Error>(
                Error::InvalidDiskSize { expected: 0x23000, actual: data@.len() as usize },
            ),
            drive < 2 && data@.len() == 0x23000 ==> {
                &&& res is Ok
                &&& final(self).bus.disk.drive(drive as int).has_disk
                &&& final(self).bus.disk.drive(drive as int).raw_data matches Some(raw) && raw@ == data@
            },
    {
        self.bus.disk_controller_enabled = true;
        self.bus.disk.load_disk_bytes(data, drive, write_protected)
    }

    /// Enable or disable the Disk II in slot 6.
    pub fn set_disk_controller_enabled(&mut self, enabled: bool)
        ensures
            *final(self) == (AppleII { bus: BusState { disk_controller_enabled: enabled, ..old(self).bus }, ..*old(self) }),
    {
        self.bus.disk_controller_enabled = enabled;
    }

    /// Enable or disable fast disk (serving RWTS calls directly).
    pub fn set_fast_disk(&mut self, enabled: bool)
        ensures
            *final(self) == (AppleII { bus: BusState { fast_disk: enabled, ..old(self).bus }, ..*old(self) }),
    {
        self.bus.fast_disk = enabled;
    }

    /// Whether fast disk is on.
    pub fn is_fast_disk(&self) -> (r: bool)
        ensures
            r == self.bus.fast_disk,
    {
        self.bus.fast_disk
    }

    /// Return and clear the last deferred disk error.
    pub fn take_disk_error(&mut self) -> (e: Option<Error>)
        ensures
            e == old(self).bus.disk.last_error,
            *final(self) == (AppleII {
                bus: BusState { disk: DiskII { last_error: None, ..old(self).bus.disk }, ..old(self).bus },
                ..*old(self)
            }),
    {
        self.bus.disk.take_last_error()
    }

    /// The 48K of RAM, for rendering.
    pub fn ram(&self) -> (r: &[u8])
        ensures
            r@ == self.bus.ram@,
    {
        self.bus.ram.as_slice()
    }

    /// Read through the bus, with its side effects.
    pub fn read(&mut self, addr: u16) -> (val: u8)
        ensures
            final(self).cpu == old(self).cpu,
            bus_read(old(self).bus, final(self).bus, addr, val),
    {
        self.bus.read(addr)
    }

    /// Write through the bus.
    pub fn write(&mut self, addr: u16, val: u8)
        ensures
            final(self).cpu == old(self).cpu,
            bus_write(old(self).bus, final(self).bus, addr, val),
    {
        self.bus.write(addr, val)
    }

    /// Read without side effects.
    pub fn peek(&self, addr: u16) -> (val: u8)
        ensures
            val == bus_peek(self.bus, addr),
    {
        self.bus.peek(addr)
    }

    /// Take the speaker toggles recorded so far, for the audio synthesiser.
    pub fn take_speaker_toggles(&mut self) -> (t: Vec<u64>)
        ensures
            t@ == old(self).bus.speaker_toggles@,
            final(self).bus.speaker_toggles@.len() == 0,
            final(self).cpu == old(self).cpu,
            final(self).bus == (BusState { speaker_toggles: final(self).bus.speaker_toggles, ..old(self).bus }),
    {
        self.bus.take_speaker_toggles()
    }
}

impl Default for AppleII {
    /// The power-on machine (see `new`).
    fn default() -> (m: Self)
        ensures
            m.wf(),
            m.cpu.pc == 0 && m.cpu.sp == 0xFD && m.cpu.cycles == 0,
            !m.bus.disk_controller_enabled && !m.bus.fast_disk && !m.bus.rom_loaded,
    {
        AppleII::new()
    }
}

} // verus!
