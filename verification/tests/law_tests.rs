use a2vm_core::cpu::status::{C, N, V, Z};
use a2vm_core::cpu::Cpu;
use a2vm_core::disk::codec::{
    decode_6and2_sector, decode_nibblized_track, dos33_sector_order, encode_6and2, nibblize_track,
    DSK_SIZE,
};
use a2vm_core::error::Error;
use a2vm_core::memory::FlatMemory;
use a2vm_core::video::{render_text_page, BITMAP_SIZE, BITMAP_STRIDE};

fn run(program: &[u8], steps: usize) -> (Cpu, FlatMemory) {
    let mut mem = FlatMemory::new();
    for (i, b) in program.iter().enumerate() {
        mem.data[0x0200 + i] = *b;
    }
    let mut cpu = Cpu::new();
    cpu.pc = 0x0200;
    for _ in 0..steps {
        cpu.step(&mut mem);
    }
    (cpu, mem)
}

#[test]
fn sbc_matches_adc_of_complement() {
    for &(a, m, carry) in &[(0x50u8, 0x30u8, true), (0x10, 0x20, false), (0x80, 0x01, true), (0x00, 0xFF, false)] {
        let set_c = if carry { 0x38 } else { 0x18 };
        let (sbc, _) = run(&[0xD8, set_c, 0xA9, a, 0xE9, m], 4);
        let (adc, _) = run(&[0xD8, set_c, 0xA9, a, 0x69, 255 - m], 4);
        assert_eq!(sbc.a, adc.a);
        assert_eq!(sbc.p.0, adc.p.0);
    }
}

#[test]
fn binary_adc_carries_out() {
    let (cpu, _) = run(&[0x18, 0xA9, 0xF0, 0x69, 0x20], 3);
    assert_eq!(cpu.a, 0x10);
    assert!(cpu.p.get(C));
    assert!(!cpu.p.get(V));
    let (cpu, _) = run(&[0x18, 0xA9, 0x7F, 0x69, 0x01], 3);
    assert_eq!(cpu.a, 0x80);
    assert!(cpu.p.get(V));
    assert!(cpu.p.get(N));
}

#[test]
fn decimal_adc_adds_bcd() {
    let (cpu, _) = run(&[0xF8, 0x18, 0xA9, 0x45, 0x69, 0x38], 4);
    assert_eq!(cpu.a, 0x83);
    assert!(!cpu.p.get(C));
    let (cpu, _) = run(&[0xF8, 0x38, 0xA9, 0x75, 0x69, 0x50], 4);
    assert_eq!(cpu.a, 0x26);
    assert!(cpu.p.get(C));
}

#[test]
fn decimal_sbc_subtracts_bcd() {
    let (cpu, _) = run(&[0xF8, 0x38, 0xA9, 0x42, 0xE9, 0x13], 4);
    assert_eq!(cpu.a, 0x29);
    assert!(cpu.p.get(C));
    let (cpu, _) = run(&[0xF8, 0x38, 0xA9, 0x10, 0xE9, 0x20], 4);
    assert_eq!(cpu.a, 0x90);
    assert!(!cpu.p.get(C));
}

#[test]
fn compare_sets_carry_zero_negative() {
    let (cpu, _) = run(&[0xA9, 0x40, 0xC9, 0x40], 2);
    assert!(cpu.p.get(C) && cpu.p.get(Z) && !cpu.p.get(N));
    let (cpu, _) = run(&[0xA9, 0x40, 0xC9, 0x41], 2);
    assert!(!cpu.p.get(C) && !cpu.p.get(Z) && cpu.p.get(N));
    let (cpu, _) = run(&[0xA2, 0x90, 0xE0, 0x10], 2);
    assert!(cpu.p.get(C) && !cpu.p.get(Z) && cpu.p.get(N));
}

#[test]
fn pull_returns_pushed_byte() {
    let (cpu, _) = run(&[0xA9, 0x5A, 0x48, 0xA9, 0x00, 0x68], 4);
    assert_eq!(cpu.a, 0x5A);
    assert_eq!(cpu.sp, 0xFD);
}

#[test]
fn rts_returns_after_jsr() {
    let mut program = vec![0u8; 0x101];
    program[0] = 0x20; // JSR $0300
    program[1] = 0x00;
    program[2] = 0x03;
    program[0x100] = 0x60; // RTS at $0300
    let (cpu, mem) = run(&program, 2);
    assert_eq!(cpu.pc, 0x0203);
    assert_eq!(cpu.sp, 0xFD);
    assert_eq!(cpu.cycles, 12);
    assert_eq!(mem.data[0x01FD], 0x02);
    assert_eq!(mem.data[0x01FC], 0x02);
}

#[test]
fn dos33_interleave_is_a_permutation() {
    let mut seen = [false; 16];
    for p in 0..16 {
        let l = dos33_sector_order(p);
        assert!(l < 16);
        assert!(!seen[l]);
        seen[l] = true;
    }
}

#[test]
fn six_and_two_decodes_what_it_encodes() {
    for seed in 0..8u8 {
        let mut data = [0u8; 256];
        for (i, b) in data.iter_mut().enumerate() {
            *b = (i as u8).wrapping_mul(seed.wrapping_mul(29).wrapping_add(3)).wrapping_add(seed);
        }
        let mut enc = Vec::new();
        encode_6and2(&mut enc, &data);
        assert_eq!(decode_6and2_sector(&enc), Some(data));
    }
}

#[test]
fn corrupt_six_and_two_is_refused() {
    let data = [0x11u8; 256];
    let mut enc = Vec::new();
    encode_6and2(&mut enc, &data);
    enc[5] = 0xAA; // not a disk nibble
    assert_eq!(decode_6and2_sector(&enc), None);
}

#[test]
fn track_roundtrip_without_de_nibbles() {
    let mut raw = vec![0u8; DSK_SIZE];
    for (i, b) in raw.iter_mut().enumerate() {
        *b = (i as u8).wrapping_add(1);
    }
    let track = 7usize;
    let nib = nibblize_track(&raw, track);
    let mut decoded = vec![0xEEu8; DSK_SIZE];
    decode_nibblized_track(&nib, &mut decoded, track).unwrap();
    let start = track * 4096;
    assert_eq!(&decoded[start..start + 4096], &raw[start..start + 4096]);
    assert!(decoded[..start].iter().all(|&b| b == 0xEE));
    assert!(decoded[start + 4096..].iter().all(|&b| b == 0xEE));
}

#[test]
fn sector_encoding_to_de_is_refused_by_the_track_decoder() {
    // Find sector data whose 6-and-2 encoding holds a $DE nibble.
    let mut data = [0u8; 256];
    'search: for seed in 1..=255u8 {
        for (i, b) in data.iter_mut().enumerate() {
            *b = (i as u8).wrapping_mul(seed).wrapping_add(seed >> 1);
        }
        let mut enc = Vec::new();
        encode_6and2(&mut enc, &data);
        if enc.contains(&0xDE) {
            break 'search;
        }
    }
    let mut raw = vec![0u8; DSK_SIZE];
    raw[..256].copy_from_slice(&data);
    let nib = nibblize_track(&raw, 0);
    let mut decoded = vec![0u8; DSK_SIZE];
    let result = decode_nibblized_track(&nib, &mut decoded, 0);
    assert!(matches!(result, Err(Error::DiskDecodeFailed { track: 0 })));
}

#[test]
fn inverse_text_is_complement_of_normal() {
    let mut inverse = vec![0xA0u8; 0x0800];
    let mut normal = vec![0xA0u8; 0x0800];
    inverse[0x0400] = 0x01; // inverse 'A'
    normal[0x0400] = 0x81; // normal 'A'
    let mut bi = [0u8; BITMAP_SIZE];
    let mut bn = [0u8; BITMAP_SIZE];
    render_text_page(&inverse, &mut bi, false);
    render_text_page(&normal, &mut bn, false);
    for y in 0..8 {
        for x in 0..7 {
            let idx = y * BITMAP_STRIDE + x / 8;
            let bit = 7 - (x % 8);
            let on_i = bi[idx] & (1 << bit) != 0;
            let on_n = bn[idx] & (1 << bit) != 0;
            assert_ne!(on_i, on_n);
        }
    }
}
