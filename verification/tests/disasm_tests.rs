use std::cell::Cell;

use a2vm_core::bus::Bus;
use a2vm_core::cpu::disasm::{disasm, disasm_bytes};
use a2vm_core::memory::FlatMemory;

struct PeekOnlyBus {
    data: [u8; 65536],
    read_count: Cell<u32>,
}

impl PeekOnlyBus {
    fn new() -> Self {
        Self {
            data: [0; 65536],
            read_count: Cell::new(0),
        }
    }
}

impl Bus for PeekOnlyBus {
    fn read(&mut self, addr: u16) -> u8 {
        self.read_count.set(self.read_count.get() + 1);
        self.data[addr as usize]
    }

    fn write(&mut self, addr: u16, val: u8) {
        self.data[addr as usize] = val;
    }

    fn peek(&self, addr: u16) -> u8 {
        self.data[addr as usize]
    }

    fn set_cycle(&mut self, _cycle: u64) {}
}

#[test]
fn formats_immediate() {
    let mut mem = FlatMemory::new();
    mem.data[0x400] = 0xA9;
    mem.data[0x401] = 0x7F;

    let (line, size) = disasm(&mem, 0x400);
    assert_eq!(line, "LDA #$7F");
    assert_eq!(size, 2);
}

#[test]
fn formats_absolute_indexed() {
    let mut mem = FlatMemory::new();
    mem.data[0x200] = 0xBD;
    mem.data[0x201] = 0x34;
    mem.data[0x202] = 0x12;

    let (line, size) = disasm(&mem, 0x200);
    assert_eq!(line, "LDA $1234,X");
    assert_eq!(size, 3);
}

#[test]
fn formats_relative_target() {
    let mut mem = FlatMemory::new();
    mem.data[0x1000] = 0xD0;
    mem.data[0x1001] = 0xFE;

    let (line, size) = disasm(&mem, 0x1000);
    assert_eq!(line, "BNE $1000");
    assert_eq!(size, 2);
}

#[test]
fn uses_peek_without_side_effect_reads() {
    let mut bus = PeekOnlyBus::new();
    bus.data[0x0000] = 0xEA;

    let (line, size) = disasm(&bus, 0x0000);
    assert_eq!(line, "NOP");
    assert_eq!(size, 1);
    assert_eq!(bus.read_count.get(), 0);
}

#[test]
fn formats_every_addressing_mode() {
    let cases: [(u8, &str, u8); 13] = [
        (0x00, "BRK", 1),
        (0x0A, "ASL A", 1),
        (0xA9, "LDA #$34", 2),
        (0xA5, "LDA $34", 2),
        (0xB5, "LDA $34,X", 2),
        (0xB6, "LDX $34,Y", 2),
        (0xAD, "LDA $1234", 3),
        (0xBD, "LDA $1234,X", 3),
        (0xB9, "LDA $1234,Y", 3),
        (0x6C, "JMP ($1234)", 3),
        (0xA1, "LDA ($34,X)", 2),
        (0xB1, "LDA ($34),Y", 2),
        (0x10, "BPL $0336", 2),
    ];
    for (op, text, size) in cases {
        let (line, n) = disasm_bytes(op, 0x34, 0x12, 0x0300);
        assert_eq!(line, text);
        assert_eq!(n, size);
    }
}

#[test]
fn relative_target_wraps_around_memory() {
    let (line, _) = disasm_bytes(0xF0, 0x80, 0x00, 0x0010);
    assert_eq!(line, "BEQ $FF92");
    let (line, _) = disasm_bytes(0xF0, 0x7F, 0x00, 0xFFF0);
    assert_eq!(line, "BEQ $0071");
}

#[test]
fn illegal_opcode_shows_ill() {
    let (line, size) = disasm_bytes(0x02, 0, 0, 0);
    assert_eq!(line, "ILL");
    assert_eq!(size, 1);
}
