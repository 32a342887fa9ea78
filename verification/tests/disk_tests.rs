use a2vm_core::disk::codec::{
    decode_nibblized_track, encode_4and4, encode_6and2, nibblize_disk, nibblize_sector,
    build_reverse_table, write_table_entry, AUX_BYTES, DSK_SIZE, MAIN_BYTES, NIBBLE_TRACK_SIZE,
    TRACK_COUNT,
};
use a2vm_core::disk::DiskII;
use a2vm_core::error::Error;

fn table_position(code: u8) -> u8 {
    let val = build_reverse_table()[code as usize];
    assert!(val < 64 && write_table_entry(val) == code, "invalid 6-and-2 code");
    val
}

fn decode_6and2_stream(encoded: &[u8]) -> [u8; 256] {
    assert_eq!(encoded.len(), 343);

    let mut raw6 = [0u8; MAIN_BYTES];
    let mut raw2 = [0u8; AUX_BYTES];
    let mut last = 0u8;

    for idx in 0..AUX_BYTES {
        let val = table_position(encoded[idx]);
        let dec = val ^ last;
        raw2[AUX_BYTES - 1 - idx] = dec;
        last = dec;
    }

    for idx in 0..MAIN_BYTES {
        let val = table_position(encoded[AUX_BYTES + idx]);
        let dec = val ^ last;
        raw6[idx] = dec;
        last = dec;
    }

    let checksum_val = table_position(encoded[342]);
    let checksum = checksum_val ^ last;
    assert_eq!(checksum, 0, "6-and-2 checksum mismatch");

    let mut data = raw6;
    let mut j = AUX_BYTES - 1;
    for byte in &mut data {
        *byte <<= 1;
        if (raw2[j] & 0x01) != 0 {
            *byte |= 0x01;
        }
        raw2[j] >>= 1;

        *byte <<= 1;
        if (raw2[j] & 0x01) != 0 {
            *byte |= 0x01;
        }
        raw2[j] >>= 1;

        if j == 0 {
            j = AUX_BYTES - 1;
        } else {
            j -= 1;
        }
    }

    data
}

fn new_nibble_store() -> Vec<u8> {
    vec![0u8; TRACK_COUNT * NIBBLE_TRACK_SIZE]
}

fn track_slice(store: &[u8], track: usize) -> &[u8] {
    &store[track * NIBBLE_TRACK_SIZE..(track + 1) * NIBBLE_TRACK_SIZE]
}

#[test]
fn disk_test_4and4_encoding() {
    let mut buf = Vec::new();
    encode_4and4(&mut buf, 0xFE);
    // 0xFE >> 1 = 0x7F, 0x7F | 0xAA = 0xFF
    // 0xFE | 0xAA = 0xFE
    assert_eq!(buf[0], 0xFF);
    assert_eq!(buf[1], 0xFE);
}

#[test]
fn disk_test_4and4_zero() {
    let mut buf = Vec::new();
    encode_4and4(&mut buf, 0x00);
    assert_eq!(buf[0], 0xAA);
    assert_eq!(buf[1], 0xAA);
}

#[test]
fn disk_test_nibblize_track_size() {
    let raw = vec![0u8; DSK_SIZE];
    let mut out = new_nibble_store();
    nibblize_disk(&raw, &mut out);

    // Every track should be exactly NIBBLE_TRACK_SIZE bytes
    assert_eq!(out.len(), TRACK_COUNT * NIBBLE_TRACK_SIZE);
    for track in 0..TRACK_COUNT {
        assert_eq!(track_slice(&out, track).len(), NIBBLE_TRACK_SIZE);
    }
}

#[test]
fn disk_test_encode_6and2_roundtrip() {
    let mut input = [0u8; 256];
    for (i, b) in input.iter_mut().enumerate() {
        *b = (i as u8).wrapping_mul(37).wrapping_add(11);
    }

    let mut stream = Vec::new();
    encode_6and2(&mut stream, &input);
    assert_eq!(stream.len(), 343);

    let decoded = decode_6and2_stream(&stream);
    assert_eq!(decoded, input);
}

#[test]
fn disk_test_nibblize_sector_markers() {
    let data = [0u8; 256];
    let mut buf = Vec::new();
    nibblize_sector(&mut buf, 0, 0, &data);

    // Address field prologue for track 0 sector 0 is after 0x80 sync bytes.
    assert_eq!(buf[0x80], 0xD5);
    assert_eq!(buf[0x81], 0xAA);
    assert_eq!(buf[0x82], 0x96);

    // Address epilogue should be DE AA EB
    assert_eq!(buf[0x8B], 0xDE);
    assert_eq!(buf[0x8C], 0xAA);
    assert_eq!(buf[0x8D], 0xEB);

    // Data field prologue after 5 sync bytes.
    assert_eq!(buf[0x93], 0xD5);
    assert_eq!(buf[0x94], 0xAA);
    assert_eq!(buf[0x95], 0xAD);
}

#[test]
fn disk_test_write_table_valid_nibbles() {
    // All entries should have high bit set and be valid disk nibbles (>= 0x96)
    for v in 0..64u8 {
        let val = write_table_entry(v);
        assert!(val >= 0x96, "WRITE_TABLE entry {:#04X} < 0x96", val);
        assert!(
            val & 0x80 != 0,
            "WRITE_TABLE entry {:#04X} missing high bit",
            val
        );
    }
}

#[test]
fn disk_test_stepper_motor_forward() {
    let mut disk = DiskII::new();
    disk.motor_on = true;
    assert_eq!(disk.half_track, 0);

    // Energize phase 1 (next from phase 0)
    disk.set_phase(1, true);
    assert_eq!(disk.half_track, 1);

    // Energize phase 2
    disk.set_phase(2, true);
    assert_eq!(disk.half_track, 2);
}

#[test]
fn disk_test_stepper_motor_backward() {
    let mut disk = DiskII::new();
    disk.motor_on = true;
    disk.half_track = 10;

    // Current phase = 10 % 4 = 2, previous = 1
    disk.set_phase(1, true);
    assert_eq!(disk.half_track, 9);
}

#[test]
fn disk_test_stepper_motor_clamp() {
    let mut disk = DiskII::new();
    disk.motor_on = true;
    disk.half_track = 0;

    // Try to go below 0
    disk.set_phase(3, true); // prev from phase 0
    assert_eq!(disk.half_track, 0);

    // Try to go above 69
    disk.half_track = 69;
    let current_phase = 69 % 4; // = 1
    let next = (current_phase + 1) % 4; // = 2
    disk.set_phase(next, true);
    assert_eq!(disk.half_track, 69);
}

#[test]
fn disk_test_read_nibble_no_disk() {
    let mut disk = DiskII::new();
    assert_eq!(disk.read_nibble(), 0x00);
}

#[test]
fn disk_test_io_switches() {
    let mut disk = DiskII::new();

    // Motor on
    disk.io_read(0xC0E9);
    assert!(disk.motor_on);

    // Motor off
    disk.io_read(0xC0E8);
    assert!(!disk.motor_on);

    // Select drive 2
    disk.io_read(0xC0EB);
    assert_eq!(disk.selected_drive, 1);

    // Select drive 1
    disk.io_read(0xC0EA);
    assert_eq!(disk.selected_drive, 0);
}

#[test]
fn disk_test_decode_nibblized_track() {
    let mut raw = vec![0u8; DSK_SIZE];
    for (i, byte) in raw.iter_mut().enumerate() {
        *byte = (i as u8).wrapping_add(1);
    }

    let mut nibble_tracks = new_nibble_store();
    nibblize_disk(&raw, &mut nibble_tracks);

    let mut decoded = vec![0u8; DSK_SIZE];
    for track in 0..TRACK_COUNT {
        decode_nibblized_track(track_slice(&nibble_tracks, track), &mut decoded, track).unwrap();
    }

    assert_eq!(raw, decoded);
}

#[test]
fn disk_test_q6_q7_write_mode_writes_nibble_stream() {
    let raw = vec![0u8; DSK_SIZE];
    let mut disk = DiskII::new();
    disk.load_disk_bytes(&raw, 0, false).unwrap();

    disk.io_write(0xC0E9, 0x00);
    disk.io_write(0xC0ED, 0x00);
    disk.io_write(0xC0EF, 0x00);

    let track = (disk.half_track / 2) as usize;
    let write_pos = disk.drive0.byte_position;
    disk.io_write(0xC0EF, 0xA5);
    assert_eq!(disk.drive0.nibble_data[track * NIBBLE_TRACK_SIZE + write_pos], 0xA5);
}

#[test]
fn disk_test_nibble_to_raw_sync_roundtrip() {
    let mut raw = vec![0u8; DSK_SIZE];
    for (i, byte) in raw.iter_mut().enumerate() {
        *byte = (i as u8).wrapping_mul(17).wrapping_add(43);
    }

    let mut disk = DiskII::new();
    disk.load_disk_bytes(&raw, 0, false).unwrap();

    let original_sector = disk.read_sector_raw(0, 0, 0).unwrap();

    disk.drive0.dirty = true;
    disk.drive0.dirty_tracks[0] = true;
    disk.sync_nibble_to_raw(0).unwrap();

    let after_sync = disk.read_sector_raw(0, 0, 0).unwrap();
    assert_eq!(original_sector, after_sync);

    let persisted = disk.export_disk_bytes(0).unwrap();
    assert_eq!(&persisted[..256], &original_sector[..]);
}

#[test]
fn disk_test_sync_preserves_write_protection() {
    let raw = vec![0u8; DSK_SIZE];
    let mut disk = DiskII::new();
    disk.load_disk_bytes(&raw, 0, false).unwrap();
    disk.drive0.write_protected = true;
    disk.drive0.dirty = true;
    disk.drive0.dirty_tracks[0] = true;

    let result = disk.sync_nibble_to_raw(0);
    assert!(matches!(result, Err(Error::DiskWriteProtected)));
}

#[test]
fn disk_test_write_sector_raw_updates_raw_and_file() {
    let raw = vec![0u8; DSK_SIZE];
    let mut disk = DiskII::new();
    disk.load_disk_bytes(&raw, 0, false).unwrap();

    let mut sector = [0u8; 256];
    for (i, b) in sector.iter_mut().enumerate() {
        *b = (i as u8).wrapping_mul(3).wrapping_add(7);
    }

    disk.write_sector_raw(0, 0, 0, &sector).unwrap();

    let read_back = disk.read_sector_raw(0, 0, 0).unwrap();
    assert_eq!(read_back, sector);

    let persisted = disk.export_disk_bytes(0).unwrap();
    assert_eq!(&persisted[..256], &sector);
}

#[test]
fn tests_test_4and4_encoding() {
    let mut buf = Vec::new();
    encode_4and4(&mut buf, 0xFE);
    // 0xFE >> 1 = 0x7F, 0x7F | 0xAA = 0xFF
    // 0xFE | 0xAA = 0xFE
    assert_eq!(buf[0], 0xFF);
    assert_eq!(buf[1], 0xFE);
}

#[test]
fn tests_test_4and4_zero() {
    let mut buf = Vec::new();
    encode_4and4(&mut buf, 0x00);
    assert_eq!(buf[0], 0xAA);
    assert_eq!(buf[1], 0xAA);
}

#[test]
fn tests_test_nibblize_track_size() {
    let raw = vec![0u8; DSK_SIZE];
    let mut out = new_nibble_store();
    nibblize_disk(&raw, &mut out);

    // Every track should be exactly NIBBLE_TRACK_SIZE bytes
    assert_eq!(out.len(), TRACK_COUNT * NIBBLE_TRACK_SIZE);
    for track in 0..TRACK_COUNT {
        assert_eq!(track_slice(&out, track).len(), NIBBLE_TRACK_SIZE);
    }
}

#[test]
fn tests_test_encode_6and2_roundtrip() {
    let mut input = [0u8; 256];
    for (i, b) in input.iter_mut().enumerate() {
        *b = (i as u8).wrapping_mul(37).wrapping_add(11);
    }

    let mut stream = Vec::new();
    encode_6and2(&mut stream, &input);
    assert_eq!(stream.len(), 343);

    let decoded = decode_6and2_stream(&stream);
    assert_eq!(decoded, input);
}

#[test]
fn tests_test_nibblize_sector_markers() {
    let data = [0u8; 256];
    let mut buf = Vec::new();
    nibblize_sector(&mut buf, 0, 0, &data);

    // Address field prologue for track 0 sector 0 is after 0x80 sync bytes.
    assert_eq!(buf[0x80], 0xD5);
    assert_eq!(buf[0x81], 0xAA);
    assert_eq!(buf[0x82], 0x96);

    // Address epilogue should be DE AA EB
    assert_eq!(buf[0x8B], 0xDE);
    assert_eq!(buf[0x8C], 0xAA);
    assert_eq!(buf[0x8D], 0xEB);

    // Data field prologue after 5 sync bytes.
    assert_eq!(buf[0x93], 0xD5);
    assert_eq!(buf[0x94], 0xAA);
    assert_eq!(buf[0x95], 0xAD);
}

#[test]
fn tests_test_write_table_valid_nibbles() {
    // All entries should have high bit set and be valid disk nibbles (>= 0x96)
    for v in 0..64u8 {
        let val = write_table_entry(v);
        assert!(val >= 0x96, "WRITE_TABLE entry {:#04X} < 0x96", val);
        assert!(
            val & 0x80 != 0,
            "WRITE_TABLE entry {:#04X} missing high bit",
            val
        );
    }
}

#[test]
fn tests_test_stepper_motor_forward() {
    let mut disk = DiskII::new();
    disk.motor_on = true;
    assert_eq!(disk.half_track, 0);

    // Energize phase 1 (next from phase 0)
    disk.set_phase(1, true);
    assert_eq!(disk.half_track, 1);

    // Energize phase 2
    disk.set_phase(2, true);
    assert_eq!(disk.half_track, 2);
}

#[test]
fn tests_test_stepper_motor_backward() {
    let mut disk = DiskII::new();
    disk.motor_on = true;
    disk.half_track = 10;

    // Current phase = 10 % 4 = 2, previous = 1
    disk.set_phase(1, true);
    assert_eq!(disk.half_track, 9);
}

#[test]
fn tests_test_stepper_motor_clamp() {
    let mut disk = DiskII::new();
    disk.motor_on = true;
    disk.half_track = 0;

    // Try to go below 0
    disk.set_phase(3, true); // prev from phase 0
    assert_eq!(disk.half_track, 0);

    // Try to go above 69
    disk.half_track = 69;
    let current_phase = 69 % 4; // = 1
    let next = (current_phase + 1) % 4; // = 2
    disk.set_phase(next, true);
    assert_eq!(disk.half_track, 69);
}

#[test]
fn tests_test_read_nibble_no_disk() {
    let mut disk = DiskII::new();
    assert_eq!(disk.read_nibble(), 0x00);
}

#[test]
fn tests_test_io_switches() {
    let mut disk = DiskII::new();

    // Motor on
    disk.io_read(0xC0E9);
    assert!(disk.motor_on);

    // Motor off
    disk.io_read(0xC0E8);
    assert!(!disk.motor_on);

    // Select drive 2
    disk.io_read(0xC0EB);
    assert_eq!(disk.selected_drive, 1);

    // Select drive 1
    disk.io_read(0xC0EA);
    assert_eq!(disk.selected_drive, 0);
}

#[test]
fn tests_test_decode_nibblized_track() {
    let mut raw = vec![0u8; DSK_SIZE];
    for (i, byte) in raw.iter_mut().enumerate() {
        *byte = (i as u8).wrapping_add(1);
    }

    let mut nibble_tracks = new_nibble_store();
    nibblize_disk(&raw, &mut nibble_tracks);

    let mut decoded = vec![0u8; DSK_SIZE];
    for track in 0..TRACK_COUNT {
        decode_nibblized_track(track_slice(&nibble_tracks, track), &mut decoded, track).unwrap();
    }

    assert_eq!(raw, decoded);
}

#[test]
fn tests_test_q6_q7_write_mode_writes_nibble_stream() {
    let raw = vec![0u8; DSK_SIZE];
    let mut disk = DiskII::new();
    disk.load_disk_bytes(&raw, 0, false).unwrap();

    disk.io_write(0xC0E9, 0x00);
    disk.io_write(0xC0ED, 0x00);
    disk.io_write(0xC0EF, 0x00);

    let track = (disk.half_track / 2) as usize;
    let write_pos = disk.drive0.byte_position;
    disk.io_write(0xC0EF, 0xA5);
    assert_eq!(disk.drive0.nibble_data[track * NIBBLE_TRACK_SIZE + write_pos], 0xA5);
}

#[test]
fn tests_test_nibble_to_raw_sync_roundtrip() {
    let mut raw = vec![0u8; DSK_SIZE];
    for (i, byte) in raw.iter_mut().enumerate() {
        *byte = (i as u8).wrapping_mul(17).wrapping_add(43);
    }

    let mut disk = DiskII::new();
    disk.load_disk_bytes(&raw, 0, false).unwrap();

    let original_sector = disk.read_sector_raw(0, 0, 0).unwrap();

    disk.drive0.dirty = true;
    disk.drive0.dirty_tracks[0] = true;
    disk.sync_nibble_to_raw(0).unwrap();

    let after_sync = disk.read_sector_raw(0, 0, 0).unwrap();
    assert_eq!(original_sector, after_sync);

    let persisted = disk.export_disk_bytes(0).unwrap();
    assert_eq!(&persisted[..256], &original_sector[..]);
}

#[test]
fn tests_test_sync_preserves_write_protection() {
    let raw = vec![0u8; DSK_SIZE];
    let mut disk = DiskII::new();
    disk.load_disk_bytes(&raw, 0, false).unwrap();
    disk.drive0.write_protected = true;
    disk.drive0.dirty = true;
    disk.drive0.dirty_tracks[0] = true;

    let result = disk.sync_nibble_to_raw(0);
    assert!(matches!(result, Err(Error::DiskWriteProtected)));
}

#[test]
fn tests_test_write_sector_raw_updates_raw_and_file() {
    let raw = vec![0u8; DSK_SIZE];
    let mut disk = DiskII::new();
    disk.load_disk_bytes(&raw, 0, false).unwrap();

    let mut sector = [0u8; 256];
    for (i, b) in sector.iter_mut().enumerate() {
        *b = (i as u8).wrapping_mul(3).wrapping_add(7);
    }

    disk.write_sector_raw(0, 0, 0, &sector).unwrap();

    let read_back = disk.read_sector_raw(0, 0, 0).unwrap();
    assert_eq!(read_back, sector);

    let persisted = disk.export_disk_bytes(0).unwrap();
    assert_eq!(&persisted[..256], &sector);
}

#[test]
fn test_decode_nibblized_track_rejects_corrupt_data() {
    let raw = vec![0u8; DSK_SIZE];
    let mut nibble_tracks = new_nibble_store();
    nibblize_disk(&raw, &mut nibble_tracks);

    // Break first track's first data prologue.
    nibble_tracks[0x93] = 0x00;

    let mut decoded = vec![0u8; DSK_SIZE];
    let result = decode_nibblized_track(track_slice(&nibble_tracks, 0), &mut decoded, 0);
    assert!(matches!(result, Err(Error::DiskDecodeFailed { track: 0 })));
}

#[test]
fn test_motor_off_syncs_nibble_to_raw() {
    let raw = vec![0u8; DSK_SIZE];
    let mut disk = DiskII::new();
    disk.load_disk_bytes(&raw, 0, false).unwrap();

    disk.drive0.write_protected = false;

    disk.io_write(0xC0E9, 0x00);
    disk.io_write(0xC0ED, 0x00);
    disk.io_write(0xC0EF, 0x00);

    for i in 0..10 {
        disk.io_write(0xC0EF, (0xA0 + i) as u8);
    }

    assert!(disk.drive0.dirty);

    disk.io_write(0xC0E8, 0x00);

    assert!(!disk.drive0.dirty);
}

#[test]
fn test_flush_all_drives() {
    let raw1 = vec![0u8; DSK_SIZE];
    let raw2 = vec![0xFFu8; DSK_SIZE];

    let mut disk = DiskII::new();
    disk.load_disk_bytes(&raw1, 0, false).unwrap();
    disk.load_disk_bytes(&raw2, 1, false).unwrap();

    disk.drive0.dirty = true;
    disk.drive1.dirty = true;
    disk.drive0.dirty_tracks[0] = true;
    disk.drive1.dirty_tracks[0] = true;

    disk.flush_all_drives().unwrap();

    assert!(!disk.drive0.dirty);
    assert!(!disk.drive1.dirty);
}

#[test]
fn reverse_table_inverts_write_table() {
    let table = build_reverse_table();
    for v in 0u8..64 {
        assert_eq!(table[write_table_entry(v) as usize], v);
    }
    assert_eq!(table[0x96], 0);
    assert_eq!(table[0xFF], 63);
    assert_eq!(table[0x00], 0xFF);
    assert_eq!(table[0xAA], 0xFF);
    assert_eq!(table[0xD5], 0xFF);
    let valid = table.iter().filter(|&&v| v != 0xFF).count();
    assert_eq!(valid, 64);
}

#[test]
fn test_sync_failure_keeps_dirty_state_for_retry() {
    let raw = vec![0u8; DSK_SIZE];
    let mut disk = DiskII::new();
    disk.load_disk_bytes(&raw, 0, false).unwrap();

    // Track 0 no longer holds any decodable sector.
    for i in 0..NIBBLE_TRACK_SIZE {
        disk.drive0.nibble_data[i] = 0x00;
    }
    disk.drive0.dirty = true;
    disk.drive0.dirty_tracks[0] = true;

    let result = disk.sync_nibble_to_raw(0);
    assert!(result.is_err());
    assert!(disk.drive0.dirty);
    assert!(disk.drive0.dirty_tracks[0]);
}

#[test]
fn test_take_last_error_on_motor_off_sync_failure() {
    let raw = vec![0u8; DSK_SIZE];
    let mut disk = DiskII::new();
    disk.load_disk_bytes(&raw, 0, false).unwrap();
    for i in 0..NIBBLE_TRACK_SIZE {
        disk.drive0.nibble_data[i] = 0x00;
    }
    disk.drive0.dirty = true;
    disk.drive0.dirty_tracks[0] = true;

    disk.motor_on = true;
    disk.io_write(0xC0E8, 0x00);

    let err = disk.take_last_error();
    assert!(matches!(err, Some(Error::DiskDecodeFailed { track: 0 })));
    assert!(disk.take_last_error().is_none());
}

#[test]
fn raw_sector_write_keeps_other_tracks_dirty() {
    let mut disk = DiskII::new();
    disk.load_disk_bytes(&[0u8; DSK_SIZE], 0, false).unwrap();
    disk.io_write(0xC0E9, 0);
    disk.io_write(0xC0ED, 0);
    disk.io_write(0xC0EF, 0xFF);
    assert!(disk.is_dirty(0));
    assert!(disk.drive0.dirty_tracks[0]);
    assert_eq!(disk.write_sector_raw(0, 1, 0, &[0u8; 256]), Ok(()));
    assert!(disk.is_dirty(0));
    assert!(disk.drive0.dirty_tracks[0]);
    assert!(!disk.drive0.dirty_tracks[1]);
    assert!(!disk.is_dirty(2));
}

#[test]
fn raw_sector_write_on_the_only_dirty_track_cleans_the_drive() {
    let mut disk = DiskII::new();
    disk.load_disk_bytes(&[0u8; DSK_SIZE], 0, false).unwrap();
    disk.io_write(0xC0E9, 0);
    disk.io_write(0xC0ED, 0);
    disk.io_write(0xC0EF, 0xFF);
    assert!(disk.is_dirty(0));
    assert_eq!(disk.write_sector_raw(0, 0, 0, &[0u8; 256]), Ok(()));
    assert!(!disk.is_dirty(0));
}

#[test]
fn new_controller_is_clean_with_blank_slot_rom() {
    let mut disk = DiskII::new();
    assert!(!disk.is_dirty(0) && !disk.is_dirty(1));
    assert!(disk.read_sector_raw(0, 0, 0).is_none());
    assert!(disk.take_last_error().is_none());
    disk.load_slot_rom(&[0xD5, 0xAA]);
    assert_eq!(disk.read_slot_rom(0xC600), 0xD5);
    assert_eq!(disk.read_slot_rom(0xC601), 0xAA);
    assert_eq!(disk.read_slot_rom(0xC602), 0x00);
    assert_eq!(disk.read_slot_rom(0xC6FF), 0x00);
}
