use a2vm_core::bus::Bus;
use a2vm_core::cpu::status::C;
use a2vm_core::machine::{
    AppleII, RWTS_CMD_SEEK, RWTS_ENTRY_PC, RWTS_ERROR_OK, RWTS_IOB_COMMAND_OFFSET,
    RWTS_IOB_DRIVE_OFFSET, RWTS_IOB_ERROR_OFFSET, RWTS_IOB_SECTOR_OFFSET, RWTS_IOB_TRACK_OFFSET,
};

#[test]
fn machine_test_ram_read_write() {
    let mut apple = AppleII::new();
    apple.write(0x0400, 0xAA);
    assert_eq!(apple.read(0x0400), 0xAA);
}

#[test]
fn machine_test_rom_write_ignored() {
    let mut apple = AppleII::new();
    apple.bus.rom[0] = 0x42;
    apple.write(0xD000, 0xFF); // should be ignored
    assert_eq!(apple.read(0xD000), 0x42);
}

#[test]
fn machine_test_keyboard_latch() {
    let mut apple = AppleII::new();
    apple.key_press(b'A'); // 0x41
    assert_eq!(apple.read(0xC000), 0xC1); // 'A' | 0x80
    assert_eq!(apple.read(0xC000), 0xC1); // still latched
}

#[test]
fn machine_test_keyboard_strobe_clear() {
    let mut apple = AppleII::new();
    apple.key_press(b'A');
    assert_eq!(apple.read(0xC000), 0xC1); // bit 7 set
    apple.read(0xC010); // clear strobe
    assert_eq!(apple.read(0xC000), 0x41); // bit 7 cleared
}

#[test]
fn machine_test_peek_no_side_effects() {
    let mut apple = AppleII::new();
    apple.key_press(b'A');
    assert_eq!(apple.peek(0xC000), 0xC1);
    // peek at $C010 should NOT clear strobe
    assert_eq!(apple.peek(0xC010), 0x00);
    assert_eq!(apple.peek(0xC000), 0xC1); // strobe still set
}

#[test]
fn machine_test_disk_controller_disable_hides_slot6() {
    let mut rom = vec![0u8; 0x5000];
    rom[0x1600] = 0xD5;
    rom[0x16FF] = 0xAA;

    let mut apple = AppleII::new();
    apple.load_rom_data(&rom).unwrap();
    apple.set_disk_controller_enabled(true);
    assert_eq!(apple.read(0xC600), 0xD5);

    apple.set_disk_controller_enabled(false);
    assert_eq!(apple.read(0xC600), 0x00);
    assert_eq!(apple.read(0xC0EC), 0x00);
}

#[test]
fn machine_test_rwts_write_trap_writes_sector_data() {
    let mut rom = vec![0u8; 0x5000];
    rom[0x2FFC] = 0x00;
    rom[0x2FFD] = 0xD0;

    let raw_disk = vec![0u8; 143_360];

    let mut apple = AppleII::new();
    apple.load_rom_data(&rom).unwrap();
    apple.load_disk_bytes_into_drive(&raw_disk, 0, false).unwrap();

    let iob = 0x0200u16;
    let buf = 0x0300u16;

    for i in 0..256u16 {
        apple.write(
            buf.wrapping_add(i),
            (i as u8).wrapping_mul(5).wrapping_add(1),
        );
    }

    apple.write(iob.wrapping_add(0x02), 1);
    apple.write(iob.wrapping_add(0x04), 0);
    apple.write(iob.wrapping_add(0x05), 0);
    apple.write(iob.wrapping_add(0x08), (buf & 0xFF) as u8);
    apple.write(iob.wrapping_add(0x09), (buf >> 8) as u8);
    apple.write(iob.wrapping_add(0x0C), 0x03);
    apple.write(iob.wrapping_add(0x0D), 0xFF);

    apple.cpu.a = (iob & 0xFF) as u8;
    apple.cpu.y = (iob >> 8) as u8;
    apple.cpu.sp = 0xFD;
    apple.write(0x01FE, 0x34);
    apple.write(0x01FF, 0x12);

    let trap_cycles = apple.try_rwts_trap();
    assert_eq!(trap_cycles, Some(140));
    assert_eq!(apple.peek(iob.wrapping_add(0x0D)), 0x00);
    assert!(!apple.cpu.p.get(C));
    assert_eq!(apple.cpu.pc(), 0x1235);

    let sector = apple.bus.disk.read_sector_raw(0, 0, 0).unwrap();
    for (i, &actual) in sector.iter().enumerate() {
        assert_eq!(actual, (i as u8).wrapping_mul(5).wrapping_add(1));
    }
}

#[test]
fn machine_test_12k_rom_clears_slot_rom() {
    let mut rom_20k = vec![0u8; 0x5000];
    rom_20k[0x1600] = 0xD5;
    rom_20k[0x16FF] = 0xAA;

    let mut apple = AppleII::new();
    apple.load_rom_data(&rom_20k).unwrap();
    apple.set_disk_controller_enabled(true);
    assert_eq!(apple.read(0xC600), 0xD5);
    assert_eq!(apple.read(0xC6FF), 0xAA);

    let rom_12k = vec![0xAAu8; 0x3000];
    apple.load_rom_data(&rom_12k).unwrap();
    assert_eq!(apple.read(0xC600), 0x00);
    assert_eq!(apple.read(0xC6FF), 0x00);
}

#[test]
fn tests_test_ram_read_write() {
    let mut apple = AppleII::new();
    apple.write(0x0400, 0xAA);
    assert_eq!(apple.read(0x0400), 0xAA);
}

#[test]
fn tests_test_rom_write_ignored() {
    let mut apple = AppleII::new();
    apple.bus.rom[0] = 0x42;
    apple.write(0xD000, 0xFF); // should be ignored
    assert_eq!(apple.read(0xD000), 0x42);
}

#[test]
fn tests_test_keyboard_latch() {
    let mut apple = AppleII::new();
    apple.key_press(b'A'); // 0x41
    assert_eq!(apple.read(0xC000), 0xC1); // 'A' | 0x80
    assert_eq!(apple.read(0xC000), 0xC1); // still latched
}

#[test]
fn tests_test_keyboard_strobe_clear() {
    let mut apple = AppleII::new();
    apple.key_press(b'A');
    assert_eq!(apple.read(0xC000), 0xC1); // bit 7 set
    apple.read(0xC010); // clear strobe
    assert_eq!(apple.read(0xC000), 0x41); // bit 7 cleared
}

#[test]
fn tests_test_peek_no_side_effects() {
    let mut apple = AppleII::new();
    apple.key_press(b'A');
    assert_eq!(apple.peek(0xC000), 0xC1);
    // peek at $C010 should NOT clear strobe
    assert_eq!(apple.peek(0xC010), 0x00);
    assert_eq!(apple.peek(0xC000), 0xC1); // strobe still set
}

#[test]
fn tests_test_disk_controller_disable_hides_slot6() {
    let mut rom = vec![0u8; 0x5000];
    rom[0x1600] = 0xD5;
    rom[0x16FF] = 0xAA;

    let mut apple = AppleII::new();
    apple.load_rom_data(&rom).unwrap();
    apple.set_disk_controller_enabled(true);
    assert_eq!(apple.read(0xC600), 0xD5);

    apple.set_disk_controller_enabled(false);
    assert_eq!(apple.read(0xC600), 0x00);
    assert_eq!(apple.read(0xC0EC), 0x00);
}

#[test]
fn tests_test_rwts_write_trap_writes_sector_data() {
    let mut rom = vec![0u8; 0x5000];
    rom[0x2FFC] = 0x00;
    rom[0x2FFD] = 0xD0;

    let raw_disk = vec![0u8; 143_360];

    let mut apple = AppleII::new();
    apple.load_rom_data(&rom).unwrap();
    apple.load_disk_bytes_into_drive(&raw_disk, 0, false).unwrap();

    let iob = 0x0200u16;
    let buf = 0x0300u16;

    for i in 0..256u16 {
        apple.write(
            buf.wrapping_add(i),
            (i as u8).wrapping_mul(5).wrapping_add(1),
        );
    }

    apple.write(iob.wrapping_add(0x02), 1);
    apple.write(iob.wrapping_add(0x04), 0);
    apple.write(iob.wrapping_add(0x05), 0);
    apple.write(iob.wrapping_add(0x08), (buf & 0xFF) as u8);
    apple.write(iob.wrapping_add(0x09), (buf >> 8) as u8);
    apple.write(iob.wrapping_add(0x0C), 0x03);
    apple.write(iob.wrapping_add(0x0D), 0xFF);

    apple.cpu.a = (iob & 0xFF) as u8;
    apple.cpu.y = (iob >> 8) as u8;
    apple.cpu.sp = 0xFD;
    apple.write(0x01FE, 0x34);
    apple.write(0x01FF, 0x12);

    let trap_cycles = apple.try_rwts_trap();
    assert_eq!(trap_cycles, Some(140));
    assert_eq!(apple.peek(iob.wrapping_add(0x0D)), 0x00);
    assert!(!apple.cpu.p.get(C));
    assert_eq!(apple.cpu.pc(), 0x1235);

    let sector = apple.bus.disk.read_sector_raw(0, 0, 0).unwrap();
    for (i, &actual) in sector.iter().enumerate() {
        assert_eq!(actual, (i as u8).wrapping_mul(5).wrapping_add(1));
    }
}

#[test]
fn tests_test_12k_rom_clears_slot_rom() {
    let mut rom_20k = vec![0u8; 0x5000];
    rom_20k[0x1600] = 0xD5;
    rom_20k[0x16FF] = 0xAA;

    let mut apple = AppleII::new();
    apple.load_rom_data(&rom_20k).unwrap();
    apple.set_disk_controller_enabled(true);
    assert_eq!(apple.read(0xC600), 0xD5);
    assert_eq!(apple.read(0xC6FF), 0xAA);

    let rom_12k = vec![0xAAu8; 0x3000];
    apple.load_rom_data(&rom_12k).unwrap();
    assert_eq!(apple.read(0xC600), 0x00);
    assert_eq!(apple.read(0xC6FF), 0x00);
}

#[test]
fn test_step_rwts_trap_advances_cpu_cycles() {
    let mut apple = AppleII::new();
    apple.set_fast_disk(true);

    let iob = 0x0200u16;
    apple.write(iob.wrapping_add(RWTS_IOB_COMMAND_OFFSET), RWTS_CMD_SEEK);
    apple.write(iob.wrapping_add(RWTS_IOB_TRACK_OFFSET), 3);
    apple.write(iob.wrapping_add(RWTS_IOB_SECTOR_OFFSET), 0);
    apple.write(iob.wrapping_add(RWTS_IOB_DRIVE_OFFSET), 1);
    apple.write(iob.wrapping_add(RWTS_IOB_ERROR_OFFSET), 0xFF);

    apple.cpu.a = (iob & 0xFF) as u8;
    apple.cpu.y = (iob >> 8) as u8;
    apple.cpu.set_pc(RWTS_ENTRY_PC);
    apple.cpu.sp = 0xFD;
    apple.write(0x01FE, 0x78);
    apple.write(0x01FF, 0x56);

    let before = apple.cpu.cycles();
    let consumed = apple.step();

    assert_eq!(consumed, 50);
    assert_eq!(apple.cpu.cycles() - before, 50);
    assert_eq!(apple.bus.disk.half_track, 6);
    assert_eq!(
        apple.peek(iob.wrapping_add(RWTS_IOB_ERROR_OFFSET)),
        RWTS_ERROR_OK
    );
    assert!(!apple.cpu.p.get(C));
    assert_eq!(apple.cpu.pc(), 0x5679);
}

#[test]
fn speaker_toggles_are_recorded_with_their_cycles() {
    let mut apple = AppleII::new();
    let half_period = 512u64;
    for i in 0..200u64 {
        apple.bus.set_cycle(i * half_period);
        apple.bus.read(0xC030);
    }
    apple.write(0xC030, 0);
    let toggles = apple.take_speaker_toggles();
    assert_eq!(toggles.len(), 201);
    assert_eq!(toggles[0], 0);
    assert_eq!(toggles[199], 199 * half_period);
    assert!(apple.take_speaker_toggles().is_empty());
}

#[test]
fn display_switches_follow_reads_and_writes() {
    let mut apple = AppleII::new();
    assert!(apple.display_mode().text);
    apple.read(0xC050);
    apple.write(0xC057, 0);
    apple.read(0xC053);
    apple.read(0xC055);
    let mode = *apple.display_mode();
    assert!(!mode.text && mode.hires && mode.mixed && mode.page2);
    apple.clear_video_dirty();
    apple.write(0x2000, 1);
    assert!(apple.is_video_dirty());
    apple.clear_video_dirty();
    apple.write(0x9000, 1);
    assert!(!apple.is_video_dirty());
}

#[test]
fn rwts_read_trap_copies_sector_into_buffer() {
    let mut raw = vec![0u8; 143_360];
    for (i, b) in raw.iter_mut().enumerate() {
        *b = (i % 251) as u8;
    }
    let mut apple = AppleII::new();
    apple.load_disk_bytes_into_drive(&raw, 0, false).unwrap();
    apple.set_fast_disk(true);
    let iob = 0x0200u16;
    apple.write(iob + 0x02, 1);
    apple.write(iob + 0x04, 2);
    apple.write(iob + 0x05, 7);
    apple.write(iob + 0x08, 0x00);
    apple.write(iob + 0x09, 0x40);
    apple.write(iob + 0x0C, 0x02);
    apple.cpu.a = 0x00;
    apple.cpu.y = 0x02;
    apple.cpu.sp = 0xF0;
    apple.write(0x01F1, 0x00);
    apple.write(0x01F2, 0x30);
    apple.cpu.set_pc(RWTS_ENTRY_PC);
    assert_eq!(apple.step(), 100);
    let offset = (2 * 16 + 7) * 256;
    for i in 0..256usize {
        assert_eq!(apple.peek(0x4000 + i as u16), raw[offset + i]);
    }
    assert_eq!(apple.bus.disk.half_track, 4);
    assert_eq!(apple.cpu.pc(), 0x3001);
    assert_eq!(apple.cpu.sp, 0xF2);
}

#[test]
fn rwts_unknown_command_falls_through() {
    let mut apple = AppleII::new();
    apple.cpu.a = 0x00;
    apple.cpu.y = 0x02;
    apple.write(0x020C, 0x09);
    assert_eq!(apple.try_rwts_trap(), None);
    apple.write(0x020C, 0x01);
    apple.write(0x0204, 40); // beyond the last track
    assert_eq!(apple.try_rwts_trap(), None);
}

#[test]
fn rwts_write_to_protected_disk_reports_io_error() {
    let raw = vec![0u8; 143_360];
    let mut apple = AppleII::new();
    apple.load_disk_bytes_into_drive(&raw, 0, true).unwrap();
    apple.write(0x020C, 0x03);
    apple.cpu.a = 0x00;
    apple.cpu.y = 0x02;
    assert_eq!(apple.try_rwts_trap(), Some(140));
    assert_eq!(apple.peek(0x020D), 0x27);
    assert!(apple.cpu.p.get(C));
}

#[test]
fn unsupported_rom_size_is_refused() {
    let mut apple = AppleII::new();
    let err = apple.load_rom_data(&[0u8; 100]).unwrap_err();
    assert_eq!(err, a2vm_core::error::Error::UnsupportedRomSize { actual: 100 });
}

#[test]
fn reset_loads_vector_from_rom() {
    let mut rom = vec![0u8; 0x3000];
    rom[0x2FFC] = 0x62;
    rom[0x2FFD] = 0xFA;
    let mut apple = AppleII::new();
    apple.load_rom_data(&rom).unwrap();
    apple.reset();
    assert_eq!(apple.cpu.pc(), 0xFA62);
    assert_eq!(apple.cpu.sp, 0xFD);
}

#[test]
fn run_cycles_runs_at_least_the_budget() {
    let mut rom = vec![0xEAu8; 0x3000]; // NOPs
    rom[0x2FFC] = 0x00;
    rom[0x2FFD] = 0xD0;
    let mut apple = AppleII::new();
    apple.load_rom_data(&rom).unwrap();
    apple.reset();
    let ran = apple.run_cycles(101);
    assert!(ran >= 101 && ran < 113);
    assert_eq!(ran % 2, 0);
}

#[test]
fn program_in_ram_runs_like_plain_memory() {
    let mut apple = AppleII::new();
    // LDA #$42; STA $0400; INC $0400; LDX $0400; NOP
    let program = [0xA9, 0x42, 0x8D, 0x00, 0x04, 0xEE, 0x00, 0x04, 0xAE, 0x00, 0x04, 0xEA];
    for (i, b) in program.iter().enumerate() {
        apple.bus.ram[0x0300 + i] = *b;
    }
    apple.cpu.set_pc(0x0300);
    apple.clear_video_dirty();

    assert_eq!(apple.step(), 2);
    assert_eq!(apple.cpu.a, 0x42);
    assert_eq!(apple.step(), 4);
    assert_eq!(apple.bus.ram[0x0400], 0x42);
    assert!(apple.is_video_dirty());
    assert_eq!(apple.step(), 6);
    assert_eq!(apple.bus.ram[0x0400], 0x43);
    assert_eq!(apple.step(), 4);
    assert_eq!(apple.cpu.x, 0x43);
    assert_eq!(apple.cpu.pc(), 0x030B);
    assert_eq!(apple.cpu.cycles(), 16);
}

#[test]
fn fast_disk_run_without_rwts_calls_matches_a_plain_run() {
    let mut rom = vec![0xEAu8; 0x3000]; // NOPs
    rom[0x2FFC] = 0x00;
    rom[0x2FFD] = 0xD0;
    let mut slow = AppleII::new();
    slow.load_rom_data(&rom).unwrap();
    slow.reset();
    let mut fast = AppleII::new();
    fast.load_rom_data(&rom).unwrap();
    fast.set_fast_disk(true);
    fast.reset();
    let ran_slow = slow.run_cycles(100);
    let ran_fast = fast.run_cycles(100);
    assert_eq!(ran_slow, 100);
    assert_eq!(ran_fast, ran_slow);
    assert_eq!(fast.cpu.pc(), slow.cpu.pc());
    assert_eq!(fast.cpu.pc(), 0xD000 + 50);
}

#[test]
fn instructions_on_soft_switches_follow_the_bus() {
    let mut apple = AppleII::new();
    // LDA $C000; BIT $C010; LDX $C000; STA $C030; LDA $C051
    let program = [
        0xAD, 0x00, 0xC0, 0x2C, 0x10, 0xC0, 0xAE, 0x00, 0xC0, 0x8D, 0x30, 0xC0, 0xAD, 0x51, 0xC0,
    ];
    for (i, b) in program.iter().enumerate() {
        apple.bus.ram[0x0300 + i] = *b;
    }
    apple.cpu.set_pc(0x0300);
    apple.bus.display.text = false;
    apple.key_press(0x41);

    assert_eq!(apple.step(), 4);
    assert_eq!(apple.cpu.a, 0xC1);
    assert_eq!(apple.step(), 4);
    assert_eq!(apple.bus.kbd_latch, 0x41);
    assert!(apple.cpu.p.get(a2vm_core::cpu::status::N));
    assert_eq!(apple.step(), 4);
    assert_eq!(apple.cpu.x, 0x41);
    let before = apple.cpu.cycles();
    assert_eq!(apple.step(), 4);
    assert_eq!(apple.take_speaker_toggles(), vec![before]);
    assert_eq!(apple.step(), 4);
    assert_eq!(apple.cpu.a, 0);
    assert!(apple.bus.display.text);
}
