//! Disk images: loading .dsk bytes into a drive, raw sector access, and
//! write-back of nibble data written through the controller.

use vstd::prelude::*;
use crate::error::Error;
use super::DiskII;
use super::codec::{DSK_SIZE, TRACK_COUNT, SECTORS_PER_TRACK, track_nibbles, sector_data, sector_offset, write_sector_bytes};
use super::drive::{sync_result, synced, any_dirty};

verus! {

/// Result of writing back drive `drive`'s nibble data.
pub open spec fn disk_sync_result(d: DiskII, drive: int) -> Result<(), Error> {
    if drive >= 2 {
        Err(Error::InvalidDiskLocation { drive: drive as usize, track: 0, sector: 0 })
    } else {
        match sync_result(d.drive(drive)) {
            Ok(_) => Ok(()),
            Err(e) => Err(e),
        }
    }
}

/// Controller state after writing back drive `drive`: that drive synced,
/// the other unchanged, the deferred error cleared when tracks were decoded.
pub open spec fn disk_synced(before: DiskII, after: DiskII, drive: int) -> bool {
    if drive >= 2 {
        after == before
    } else {
        &&& synced(before.drive(drive), after.drive(drive))
        &&& after.drive(1 - drive) == before.drive(1 - drive)
        &&& after.last_error == (if sync_result(before.drive(drive)) == Ok::<bool, Error>(true) {
                None
            } else {
                before.last_error
            })
        &&& DiskII { drive0: after.drive0, drive1: after.drive1, last_error: after.last_error, ..before } == after
    }
}

/// The 256 bytes of sector `sector` of track `track` in drive `drive`'s
/// image: none for a location out of range or a drive without an image.
pub open spec fn sector_read(d: DiskII, drive: int, track: int, sector: int) -> Option<Seq<u8>> {
    if !(0 <= drive < 2 && 0 <= track < 35 && 0 <= sector < 16) {
        None
    } else {
        match d.drive(drive).raw_data {
            None => None,
            Some(raw) => Some(sector_data(raw@, track, sector)),
        }
    }
}

/// The controller after `data` was written into sector `sector` of track
/// `track` of drive `drive`, with result `res`: refused for a location out
/// of range, a drive without a disk or image, or a write-protected disk;
/// else the image holds the sector, the track is nibblized anew and clean,
/// the drive stays dirty exactly while another track holds unsynchronized
/// nibble writes, and the deferred error is cleared.
pub open spec fn sector_written(
    before: DiskII,
    after: DiskII,
    drive: usize,
    track: u8,
    sector: u8,
    data: Seq<u8>,
    res: Result<(), Error>,
) -> bool {
    if drive >= 2 || track >= 35 || sector >= 16 {
        res == Err::<(), Error>(Error::InvalidDiskLocation { drive, track, sector }) && after == before
    } else {
        let d0 = before.drive(drive as int);
        let d1 = after.drive(drive as int);
        if !d0.has_disk {
            res == Err::<(), Error>(Error::DiskNotLoaded) && after == before
        } else if d0.write_protected {
            res == Err::<(), Error>(Error::DiskWriteProtected) && after == before
        } else if d0.raw_data is None {
            res == Err::<(), Error>(Error::DiskNotLoaded) && after == before
        } else {
            let raw2 = write_sector_bytes(d0.raw_data->0@, sector_offset(track as int, sector as int), data);
            &&& res is Ok
            &&& d1.raw_data matches Some(r) && r@ == raw2
            &&& forall|i: int| 0 <= i < 35 * 6656 ==> #[trigger] d1.nibble_data@[i] == (
                if track * 6656 <= i < track * 6656 + 6656 { track_nibbles(raw2, track as int)[i - track * 6656] }
                else { d0.nibble_data@[i] })
            &&& d1.dirty_tracks@ == d0.dirty_tracks@.update(track as int, false)
            &&& d1.dirty == any_dirty(d1.dirty_tracks@)
            &&& d1.has_disk && !d1.write_protected
            &&& d1.byte_position == d0.byte_position
            &&& after.drive(1 - drive) == before.drive(1 - drive)
            &&& DiskII { drive0: after.drive0, drive1: after.drive1, last_error: None, ..before } == after
        }
    }
}

impl DiskII {
    /// Load a .dsk image from bytes into drive 0 or 1.
    pub fn load_disk_bytes(&mut self, data: &[u8], drive: usize, write_protected: bool) -> (res: Result<(), Error>)
        requires
            old(self).wf(),
        ensures
            final(self).wf(),
            drive >= 2 ==> res == Err::<(), Error>(Error::InvalidDiskLocation { drive, track: 0, sector: 0 })
                && *final(self) == *old(self),
            drive < 2 && data@.len() != DSK_SIZE ==> res == Err::<(), Error>(
                Error::InvalidDiskSize { expected: DSK_SIZE, actual: data@.len() as usize }) && *final(self) == *old(self),
            drive < 2 && data@.len() == DSK_SIZE ==> {
                let d = final(self).drive(drive as int);
                &&& res is Ok
                &&& d.raw_data matches Some(raw) && raw@ == data@
                &&& forall|t: int, j: int| 0 <= t < 35 && 0 <= j < 6656 ==>
                        #[trigger] d.nibble_data@[t * 6656 + j] == track_nibbles(data@, t)[j]
                &&& d.has_disk && d.write_protected == write_protected
                &&& d.byte_position == 0 && !d.dirty
                &&& forall|t: int| 0 <= t < 35 ==> !d.dirty_tracks@[t]
                &&& final(self).drive(1 - drive) == old(self).drive(1 - drive)
                &&& final(self).last_error is None
                &&& DiskII { drive0: final(self).drive0, drive1: final(self).drive1, last_error: None, ..*old(self) } == *final(self)
            },
    {
        if drive >= 2 {
            return Err(Error::InvalidDiskLocation { drive, track: 0, sector: 0 });
        }
        if data.len() != DSK_SIZE {
            return Err(Error::InvalidDiskSize { expected: DSK_SIZE, actual: data.len() });
        }
        if drive == 0 {
            self.drive0.load_bytes(data, write_protected);
        } else {
            self.drive1.load_bytes(data, write_protected);
        }
        self.last_error = None;
        Ok(())
    }

    /// Write a raw 256-byte sector into a drive's image and re-nibblize
    /// its track. (Persisting the image to a file is the frontend's part.)
    pub fn write_sector_raw(&mut self, drive: usize, track: u8, sector: u8, data: &[u8; 256]) -> (res: Result<(), Error>)
        requires
            old(self).wf(),
        ensures
            final(self).wf(),
            sector_written(*old(self), *final(self), drive, track, sector, data@, res),
    {
        if drive >= 2 || track as usize >= TRACK_COUNT || sector as usize >= SECTORS_PER_TRACK {
            return Err(Error::InvalidDiskLocation { drive, track, sector });
        }
        let r = if drive == 0 {
            self.drive0.write_sector(track as usize, sector as usize, data)
        } else {
            self.drive1.write_sector(track as usize, sector as usize, data)
        };
        match r {
            Ok(()) => {
                self.last_error = None;
                Ok(())
            },
            Err(e) => Err(e),
        }
    }

    /// Read a raw 256-byte sector from the loaded .dsk image: `None` when
    /// the location is out of range or the drive has no image.
    pub fn read_sector_raw(&self, drive: usize, track: u8, sector: u8) -> (res: Option<[u8; 256]>)
        requires
            self.wf(),
        ensures
            match sector_read(*self, drive as int, track as int, sector as int) {
                None => res is None,
                Some(d) => res matches Some(buf) && buf@ == d,
            },
    {
        if drive >= 2 || track as usize >= TRACK_COUNT || sector as usize >= SECTORS_PER_TRACK {
            return None;
        }
        if drive == 0 {
            self.drive0.read_sector(track as usize, sector as usize)
        } else {
            self.drive1.read_sector(track as usize, sector as usize)
        }
    }

    /// Write the nibble data written through the controller back into the
    /// drive's image, decoding each dirty track. (Persisting the image to a
    /// file is the frontend's part.)
    pub fn sync_nibble_to_raw(&mut self, drive: usize) -> (res: Result<(), Error>)
        requires
            old(self).wf(),
        ensures
            final(self).wf(),
            res == disk_sync_result(*old(self), drive as int),
            disk_synced(*old(self), *final(self), drive as int),
    {
        if drive >= 2 {
            return Err(Error::InvalidDiskLocation { drive, track: 0, sector: 0 });
        }
        let r = if drive == 0 {
            self.drive0.sync_to_raw()
        } else {
            self.drive1.sync_to_raw()
        };
        match r {
            Ok(decoded) => {
                if decoded {
                    self.last_error = None;
                }
                Ok(())
            },
            Err(e) => Err(e),
        }
    }

    /// Whether a drive has nibble data not yet written back (false for an
    /// invalid drive).
    pub fn is_dirty(&self, drive: usize) -> (r: bool)
        ensures
            r == (drive < 2 && self.drive(drive as int).dirty),
    {
        if drive >= 2 {
            return false;
        }
        if drive == 0 { self.drive0.dirty } else { self.drive1.dirty }
    }

    /// Write back a drive's nibble data (see `sync_nibble_to_raw`).
    pub fn flush_drive(&mut self, drive: usize) -> (res: Result<(), Error>)
        requires
            old(self).wf(),
        ensures
            final(self).wf(),
            res == disk_sync_result(*old(self), drive as int),
            disk_synced(*old(self), *final(self), drive as int),
    {
        self.sync_nibble_to_raw(drive)
    }

    /// Write back both drives, drive 0 first; stops at the first error.
    pub fn flush_all_drives(&mut self) -> (res: Result<(), Error>)
        requires
            old(self).wf(),
        ensures
            final(self).wf(),
            ({
                let r0 = disk_sync_result(*old(self), 0);
                r0 is Err ==> res == r0 && disk_synced(*old(self), *final(self), 0)
            }),
            disk_sync_result(*old(self), 0) is Ok ==> exists|mid: DiskII| {
                &&& disk_synced(*old(self), mid, 0)
                &&& res == disk_sync_result(mid, 1)
                &&& #[trigger] disk_synced(mid, *final(self), 1)
            },
    {
        self.sync_nibble_to_raw(0)?;
        let ghost mid = *self;
        let r = self.sync_nibble_to_raw(1);
        assert(disk_synced(mid, *self, 1));
        r
    }

    /// The raw image bytes of a drive, if it holds a disk with an image.
    pub fn export_disk_bytes(&self, drive: usize) -> (res: Option<&[u8]>)
        requires
            self.wf(),
        ensures
            drive >= 2 || !self.drive(drive as int).has_disk ==> res is None,
            drive < 2 && self.drive(drive as int).has_disk ==> match self.drive(drive as int).raw_data {
                None => res is None,
                Some(raw) => res matches Some(bytes) && bytes@ == raw@,
            },
    {
        if drive >= 2 {
            return None;
        }
        let drv = if drive == 0 { &self.drive0 } else { &self.drive1 };
        if !drv.has_disk {
            return None;
        }
        match &drv.raw_data {
            Some(raw) => Some(raw.as_slice()),
            None => None,
        }
    }
}

/// Reading a sector gives back what was last written to it, and writing a
/// sector leaves every other sector of the image as it was.
pub proof fn lemma_read_after_write(raw: Seq<u8>, track: int, sector: int, data: Seq<u8>, t2: int, s2: int)
    requires
        raw.len() == DSK_SIZE,
        data.len() == 256,
        0 <= track < 35 && 0 <= sector < 16,
        0 <= t2 < 35 && 0 <= s2 < 16,
    ensures
        sector_data(write_sector_bytes(raw, sector_offset(track, sector), data), track, sector) == data,
        (t2, s2) != (track, sector) ==>
            sector_data(write_sector_bytes(raw, sector_offset(track, sector), data), t2, s2) == sector_data(raw, t2, s2),
{
    let w = write_sector_bytes(raw, sector_offset(track, sector), data);
    assert(sector_data(w, track, sector) =~= data);
    if (t2, s2) != (track, sector) {
        assert(sector_offset(t2, s2) + 256 <= sector_offset(track, sector) || sector_offset(track, sector) + 256 <= sector_offset(t2, s2));
        assert(sector_data(w, t2, s2) =~= sector_data(raw, t2, s2));
    }
}

/// The controller-level form: once a sector write succeeded, reading that
/// sector gives back the written bytes, and every other sector of either
/// drive reads as before.
pub proof fn lemma_sector_read_after_write(
    before: DiskII,
    after: DiskII,
    drive: usize,
    track: u8,
    sector: u8,
    data: Seq<u8>,
    res: Result<(), Error>,
    d2: int,
    t2: int,
    s2: int,
)
    requires
        before.wf(),
        data.len() == 256,
        sector_written(before, after, drive, track, sector, data, res),
        res is Ok,
    ensures
        sector_read(after, drive as int, track as int, sector as int) == Some(data),
        (d2, t2, s2) != (drive as int, track as int, sector as int) ==> sector_read(after, d2, t2, s2) == sector_read(
            before,
            d2,
            t2,
            s2,
        ),
{
    let raw = before.drive(drive as int).raw_data->0@;
    lemma_read_after_write(raw, track as int, sector as int, data, track as int, sector as int);
    if (d2, t2, s2) != (drive as int, track as int, sector as int) && 0 <= d2 < 2 && 0 <= t2 < 35 && 0 <= s2 < 16 {
        if d2 == drive {
            lemma_read_after_write(raw, track as int, sector as int, data, t2, s2);
        }
    }
}

} // verus!
