//! The bus: the memory map, the soft switches and their side effects.

use vstd::prelude::*;
use crate::bus::Bus;
use crate::disk::DiskII;
use crate::disk::io::{io_read_done, io_write_done};
use crate::video::DisplayMode;
use super::BusState;

verus! {

/// The display mode after switch `addr` ($C050-$C057) was touched: even
/// addresses clear, odd ones set TEXT, MIXED, PAGE2 and HIRES in turn.
pub open spec fn display_after(d: DisplayMode, addr: u16) -> DisplayMode {
    if addr == 0xC050 {
        DisplayMode { text: false, ..d }
    } else if addr == 0xC051 {
        DisplayMode { text: true, ..d }
    } else if addr == 0xC052 {
        DisplayMode { mixed: false, ..d }
    } else if addr == 0xC053 {
        DisplayMode { mixed: true, ..d }
    } else if addr == 0xC054 {
        DisplayMode { page2: false, ..d }
    } else if addr == 0xC055 {
        DisplayMode { page2: true, ..d }
    } else if addr == 0xC056 {
        DisplayMode { hires: false, ..d }
    } else if addr == 0xC057 {
        DisplayMode { hires: true, ..d }
    } else {
        d
    }
}

/// The bus after display switch `addr` was touched: the mode changes, the
/// switch counter advances (mod 256) and the video is marked dirty.
pub open spec fn switch_touched(b: BusState, addr: u16) -> BusState {
    BusState {
        display: display_after(b.display, addr),
        display_mode_gen: ((b.display_mode_gen + 1) % 256) as u8,
        video_dirty: true,
        ..b
    }
}

/// Text, lo-res and hi-res pages: $0400-$0BFF and $2000-$5FFF.
pub open spec fn is_video_ram(addr: u16) -> bool {
    (0x0400 <= addr < 0x0C00) || (0x2000 <= addr < 0x6000)
}

/// The byte the slot ROM area shows at `addr`.
pub open spec fn slot_rom_byte(d: DiskII, addr: u16) -> u8 {
    if d.slot_rom_loaded { d.slot_rom@[addr as int % 256] } else { 0 }
}

/// What `peek` sees at `addr`: RAM, the keyboard latch, ROM, and 0 for the
/// rest of the I/O and slot space.
pub open spec fn bus_peek(b: BusState, addr: u16) -> u8 {
    if addr < 0xC000 {
        b.ram@[addr as int]
    } else if addr < 0xC010 {
        b.kbd_latch
    } else if addr < 0xD000 {
        0
    } else {
        b.rom@[addr - 0xD000]
    }
}

/// The bus after a speaker toggle at the current cycle.
pub open spec fn speaker_toggled(before: BusState, after: BusState) -> bool {
    &&& after.speaker_toggles@ == before.speaker_toggles@.push(before.bus_cycle)
    &&& after == BusState { speaker_toggles: after.speaker_toggles, ..before }
}

/// The bus after a read of `addr` that returned `val`.
pub open spec fn bus_read(before: BusState, after: BusState, addr: u16, val: u8) -> bool {
    if addr < 0xC000 || (0xD000 <= addr) {
        val == bus_peek(before, addr) && after == before
    } else if addr < 0xC010 {
        val == before.kbd_latch && after == before
    } else if addr == 0xC010 {
        val == before.kbd_latch && after == BusState { kbd_latch: before.kbd_latch % 128, ..before }
    } else if addr == 0xC030 {
        val == 0 && speaker_toggled(before, after)
    } else if 0xC050 <= addr <= 0xC057 {
        val == 0 && after == switch_touched(before, addr)
    } else if 0xC0E0 <= addr <= 0xC0EF {
        if before.disk_controller_enabled && before.disk.wf() {
            io_read_done(before.disk, after.disk, addr, val) && after == BusState { disk: after.disk, ..before }
        } else {
            val == 0 && after == before
        }
    } else if 0xC600 <= addr <= 0xC6FF {
        val == (if before.disk_controller_enabled { slot_rom_byte(before.disk, addr) } else { 0 })
            && after == before
    } else {
        val == 0 && after == before
    }
}

/// The bus after `val` was written to `addr`; ROM and the stubs ignore it.
pub open spec fn bus_write(before: BusState, after: BusState, addr: u16, val: u8) -> bool {
    if addr < 0xC000 {
        &&& after.ram@ == before.ram@.update(addr as int, val)
        &&& after == BusState {
            ram: after.ram,
            video_dirty: before.video_dirty || is_video_ram(addr),
            ..before
        }
    } else if addr == 0xC010 {
        after == BusState { kbd_latch: before.kbd_latch % 128, ..before }
    } else if addr == 0xC030 {
        speaker_toggled(before, after)
    } else if 0xC050 <= addr <= 0xC057 {
        after == switch_touched(before, addr)
    } else if 0xC0E0 <= addr <= 0xC0EF && before.disk_controller_enabled && before.disk.wf() {
        io_write_done(before.disk, after.disk, addr, val) && after == BusState { disk: after.disk, ..before }
    } else {
        after == before
    }
}

impl BusState {
    /// Power-on state: RAM and ROM cleared, no ROM loaded, text page 1,
    /// controller present in no slot, fast disk off.
    pub fn new() -> (b: Self)
        ensures
            b.wf(),
            b.display == (DisplayMode { text: true, mixed: false, page2: false, hires: false }),
            b.speaker_toggles@.len() == 0,
            b.bus_cycle == 0,
            !b.disk_controller_enabled && !b.fast_disk && !b.rom_loaded,
            forall|i: int| 0 <= i < 0xC000 ==> #[trigger] b.ram@[i] == 0,
            forall|i: int| 0 <= i < 0x3000 ==> #[trigger] b.rom@[i] == 0,
            b.kbd_latch == 0,
            b.video_dirty,
            b.display_mode_gen == 0,
            !b.disk.motor_on && b.disk.half_track == 0 && b.disk.selected_drive == 0,
            !b.disk.drive0.has_disk && !b.disk.drive1.has_disk,
            !b.disk.slot_rom_loaded,
    {
        BusState {
            display: DisplayMode::default(),
            disk: DiskII::new(),
            speaker_toggles: Vec::new(),
            bus_cycle: 0,
            disk_controller_enabled: false,
            fast_disk: false,
            ram: [0; 0xC000],
            rom: [0; 0x3000],
            rom_loaded: false,
            kbd_latch: 0,
            video_dirty: true,
            display_mode_gen: 0,
        }
    }

    /// Handle the display mode soft switches $C050-$C057, touched by a
    /// read or a write alike.
    fn handle_display_switch(&mut self, addr: u16)
        requires
            0xC050 <= addr <= 0xC057,
        ensures
            *final(self) == switch_touched(*old(self), addr),
    {
        match addr {
            0xC050 => self.display.text = false,
            0xC051 => self.display.text = true,
            0xC052 => self.display.mixed = false,
            0xC053 => self.display.mixed = true,
            0xC054 => self.display.page2 = false,
            0xC055 => self.display.page2 = true,
            0xC056 => self.display.hires = false,
            _ => self.display.hires = true,
        }
        self.display_mode_gen = self.display_mode_gen.wrapping_add(1);
        self.video_dirty = true;
    }

    /// Record a speaker toggle at the current cycle.
    fn toggle_speaker(&mut self)
        ensures
            speaker_toggled(*old(self), *final(self)),
    {
        let cycle = self.bus_cycle;
        self.speaker_toggles.push(cycle);
    }

    /// Clear the keyboard strobe (bit 7 of the latch).
    fn clear_strobe(&mut self)
        ensures
            *final(self) == (BusState { kbd_latch: old(self).kbd_latch % 128, ..*old(self) }),
    {
        let latch = self.kbd_latch;
        let cleared = latch & 0x7F;
        assert(cleared == latch % 128) by (bit_vector)
            requires
                cleared == latch & 0x7F,
        ;
        self.kbd_latch = cleared;
    }

    /// Take the recorded speaker toggles, oldest first, for the audio
    /// synthesiser.
    pub fn take_speaker_toggles(&mut self) -> (t: Vec<u64>)
        ensures
            t@ == old(self).speaker_toggles@,
            final(self).speaker_toggles@.len() == 0,
            *final(self) == (BusState { speaker_toggles: final(self).speaker_toggles, ..*old(self) }),
    {
        let mut t = Vec::new();
        std::mem::swap(&mut t, &mut self.speaker_toggles);
        t
    }
}

/// The addresses whose reads have no side effect: RAM, the keyboard latch
/// and ROM.
pub open spec fn quiet_reads() -> Set<u16> {
    Set::new(|a: u16| a < 0xC010 || a >= 0xD000)
}

/// The addresses whose writes store the byte: RAM.
pub open spec fn ram_writes() -> Set<u16> {
    Set::new(|a: u16| a < 0xC000)
}

/// The 64K image that `peek` shows.
pub open spec fn peek_image(b: BusState) -> Seq<u8> {
    Seq::new(0x10000, |i: int| bus_peek(b, i as u16))
}

impl Bus for BusState {
    open spec fn inv(&self) -> bool {
        self.disk.wf()
    }

    open spec fn plain_reads(&self) -> Set<u16> {
        quiet_reads()
    }

    open spec fn plain_writes(&self) -> Set<u16> {
        ram_writes()
    }

    open spec fn memory(&self) -> Seq<u8> {
        peek_image(*self)
    }

    open spec fn read_rel(&self, after: Self, addr: u16, val: u8) -> bool {
        bus_read(*self, after, addr, val)
    }

    open spec fn write_rel(&self, after: Self, addr: u16, val: u8) -> bool {
        bus_write(*self, after, addr, val)
    }

    open spec fn cycle_rel(&self, after: Self, cycle: u64) -> bool {
        after == BusState { bus_cycle: cycle, ..*self }
    }

    open spec fn peek_spec(&self, addr: u16) -> u8 {
        bus_peek(*self, addr)
    }

    fn read(&mut self, addr: u16) -> (val: u8)
        ensures
            bus_read(*old(self), *final(self), addr, val),
    {
        if addr < 0xC000 {
            self.ram[addr as usize]
        } else if addr < 0xC010 {
            self.kbd_latch
        } else if addr == 0xC010 {
            let val = self.kbd_latch;
            self.clear_strobe();
            val
        } else if addr == 0xC030 {
            self.toggle_speaker();
            0
        } else if 0xC050 <= addr && addr <= 0xC057 {
            self.handle_display_switch(addr);
            0
        } else if 0xC0E0 <= addr && addr <= 0xC0EF {
            if self.disk_controller_enabled && self.disk.is_well_formed() {
                self.disk.io_read(addr)
            } else {
                0x00
            }
        } else if 0xC600 <= addr && addr <= 0xC6FF {
            if self.disk_controller_enabled {
                self.disk.read_slot_rom(addr)
            } else {
                0x00
            }
        } else if addr < 0xD000 {
            0x00
        } else {
            self.rom[(addr - 0xD000) as usize]
        }
    }

    fn write(&mut self, addr: u16, val: u8)
        ensures
            bus_write(*old(self), *final(self), addr, val),
    {
        if addr < 0xC000 {
            self.ram[addr as usize] = val;
            let is_video = (0x0400 <= addr && addr < 0x0C00) || (0x2000 <= addr && addr < 0x6000);
            if is_video {
                self.video_dirty = true;
            }
            assert(peek_image(*self) =~= peek_image(*old(self)).update(addr as int, val));
        } else if addr == 0xC010 {
            self.clear_strobe();
        } else if addr == 0xC030 {
            self.toggle_speaker();
        } else if 0xC050 <= addr && addr <= 0xC057 {
            self.handle_display_switch(addr);
        } else if 0xC0E0 <= addr && addr <= 0xC0EF {
            if self.disk_controller_enabled && self.disk.is_well_formed() {
                self.disk.io_write(addr, val);
            }
        }
    }

    fn peek(&self, addr: u16) -> (val: u8)
        ensures
            val == bus_peek(*self, addr),
    {
        if addr < 0xC000 {
            self.ram[addr as usize]
        } else if addr < 0xC010 {
            self.kbd_latch
        } else if addr < 0xD000 {
            0
        } else {
            self.rom[(addr - 0xD000) as usize]
        }
    }

    fn set_cycle(&mut self, cycle: u64)
        ensures
            *final(self) == (BusState { bus_cycle: cycle, ..*old(self) }),
    {
        self.bus_cycle = cycle;
        assert(peek_image(*self) =~= peek_image(*old(self)));
    }
}

} // verus!
