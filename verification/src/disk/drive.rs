//! One floppy drive: its nibblized tracks, the raw .dsk image they came
//! from, the head's position in the current track and the dirty state.

use vstd::prelude::*;
use crate::error::Error;
use super::codec::{
    NIBBLE_TRACK_SIZE, DSK_SIZE, TRACK_COUNT, SECTORS_PER_TRACK, scan_track, decode_nibblized_track,
    nibblize_disk, nibblize_track, track_nibbles, sector_offset, sector_data, write_sector_bytes,
};

verus! {

/// A single floppy drive.
pub struct Drive {
    /// The 35 nibblized tracks, one after the other.
    pub nibble_data: Vec<u8>,
    /// The .dsk image, when a disk was loaded.
    pub raw_data: Option<Vec<u8>>,
    /// Position of the head in the current track.
    pub byte_position: usize,
    pub has_disk: bool,
    pub write_protected: bool,
    /// Some nibble data was written and not yet decoded into the image.
    pub dirty: bool,
    /// Which tracks hold such nibble data.
    pub dirty_tracks: Vec<bool>,
}

/// Nibbles of track `t` inside the nibble store.
pub open spec fn track_of(nib: Seq<u8>, t: int) -> Seq<u8> {
    nib.subrange(t * 6656, t * 6656 + 6656)
}

/// Decoding of the dirty tracks from `t` on, in increasing order, into
/// `raw`. Stops at the first track that fails to decode. Returns the
/// failing track (none on success) and the image as far as it got.
pub open spec fn sync_from(nib: Seq<u8>, dirty: Seq<bool>, raw: Seq<u8>, t: int) -> (Option<int>, Seq<u8>)
    decreases 35 - t,
{
    if t >= 35 || t < 0 {
        (None, raw)
    } else if !dirty[t] {
        sync_from(nib, dirty, raw, t + 1)
    } else {
        let (ok, r) = scan_track(track_of(nib, t), 0, 0, raw, t);
        if !ok { (Some(t), r) } else { sync_from(nib, dirty, r, t + 1) }
    }
}

/// Whether some track is marked dirty.
pub open spec fn any_dirty(dirty: Seq<bool>) -> bool {
    exists|t: int| 0 <= t < dirty.len() && dirty[t]
}

/// Outcome of decoding a drive's dirty tracks into its image: nothing to
/// do (`Ok(false)`) without a disk or without pending writes, an error for
/// a write-protected disk, a missing image or a track that fails to
/// decode, else `Ok(true)`; `Ok(false)` too when no track is marked.
pub open spec fn sync_result(d: Drive) -> Result<bool, Error> {
    if !d.has_disk || !d.dirty {
        Ok(false)
    } else if d.write_protected {
        Err(Error::DiskWriteProtected)
    } else if d.raw_data is None {
        Err(Error::DiskNotLoaded)
    } else if !any_dirty(d.dirty_tracks@) {
        Ok(false)
    } else {
        match sync_from(d.nibble_data@, d.dirty_tracks@, d.raw_data->0@, 0).0 {
            Some(t) => Err(Error::DiskDecodeFailed { track: t as usize }),
            None => Ok(true),
        }
    }
}

/// The drive state after decoding its dirty tracks: the image holds what
/// was decoded (also the tracks before a failing one); on success no track
/// is dirty any more; nothing else changes.
pub open spec fn synced(before: Drive, after: Drive) -> bool {
    &&& after.nibble_data == before.nibble_data
    &&& after.byte_position == before.byte_position
    &&& after.has_disk == before.has_disk
    &&& after.write_protected == before.write_protected
    &&& after.raw_data is Some == before.raw_data is Some
    &&& if !before.has_disk || !before.dirty || before.write_protected || before.raw_data is None {
        after == before
    } else if !any_dirty(before.dirty_tracks@) {
        &&& !after.dirty
        &&& after.raw_data == before.raw_data
        &&& after.dirty_tracks == before.dirty_tracks
    } else {
        let (failed, r) = sync_from(before.nibble_data@, before.dirty_tracks@, before.raw_data->0@, 0);
        &&& after.raw_data->0@ == r
        &&& (failed is Some ==> after.dirty == before.dirty && after.dirty_tracks == before.dirty_tracks)
        &&& (failed is None ==> !after.dirty && forall|t: int| 0 <= t < 35 ==> !after.dirty_tracks@[t])
    }
}

/// `after` is `before` once the nibble under the head of `track` was read
/// (`val`) and the disk turned by one byte; without a disk, `val` is 0 and
/// nothing moves.
pub open spec fn nibble_read(before: Drive, after: Drive, track: int, val: u8) -> bool {
    if !before.has_disk {
        val == 0 && after == before
    } else {
        &&& val == before.nibble_data@[track * 6656 + before.byte_position]
        &&& after == Drive { byte_position: Drive::next_position(before.byte_position), ..before }
    }
}

/// `after` is `before` once `val` was written under the head of `track`
/// and the disk turned by one byte, which happens only with a writable disk
/// in and the motor on; the track is then dirty.
pub open spec fn nibble_written(before: Drive, after: Drive, track: int, val: u8, motor_on: bool) -> bool {
    if !before.has_disk || before.write_protected || !motor_on {
        after == before
    } else {
        &&& after.nibble_data@ == before.nibble_data@.update(track * 6656 + before.byte_position, val)
        &&& after.byte_position == Drive::next_position(before.byte_position)
        &&& after.dirty
        &&& after.dirty_tracks@ == before.dirty_tracks@.update(track, true)
        &&& after.raw_data == before.raw_data
        &&& after.has_disk == before.has_disk
        &&& after.write_protected == before.write_protected
    }
}

impl Drive {
    /// Well-formedness: 35 tracks of nibbles and their dirty flags, the
    /// head inside a track, a full-size image when there is one.
    pub open spec fn wf(&self) -> bool {
        &&& self.nibble_data@.len() == TRACK_COUNT * NIBBLE_TRACK_SIZE
        &&& self.dirty_tracks@.len() == TRACK_COUNT
        &&& self.byte_position < NIBBLE_TRACK_SIZE
        &&& (self.raw_data matches Some(raw) ==> raw@.len() == DSK_SIZE)
    }

    /// Whether the drive is well formed (see `wf`).
    pub fn is_well_formed(&self) -> (r: bool)
        ensures
            r == self.wf(),
    {
        let raw_ok = match &self.raw_data {
            Some(raw) => raw.len() == DSK_SIZE,
            None => true,
        };
        self.nibble_data.len() == TRACK_COUNT * NIBBLE_TRACK_SIZE && self.dirty_tracks.len() == TRACK_COUNT
            && self.byte_position < NIBBLE_TRACK_SIZE && raw_ok
    }

    /// An empty, write-protected drive.
    pub fn new() -> (d: Self)
        ensures
            d.wf(),
            d.raw_data is None,
            d.byte_position == 0,
            !d.has_disk && d.write_protected && !d.dirty,
            forall|t: int| 0 <= t < 35 ==> !d.dirty_tracks@[t],
            forall|i: int| 0 <= i < 35 * 6656 ==> d.nibble_data@[i] == 0,
    {
        Drive {
            nibble_data: vec![0u8; TRACK_COUNT * NIBBLE_TRACK_SIZE],
            raw_data: None,
            byte_position: 0,
            has_disk: false,
            write_protected: true,
            dirty: false,
            dirty_tracks: vec![false; TRACK_COUNT],
        }
    }

    /// Copy of one nibblized track.
    pub fn track_nibbles(&self, track: usize) -> (out: Vec<u8>)
        requires
            self.wf(),
            track < TRACK_COUNT,
        ensures
            out@ == track_of(self.nibble_data@, track as int),
    {
        let base = track * NIBBLE_TRACK_SIZE;
        let mut out: Vec<u8> = Vec::with_capacity(NIBBLE_TRACK_SIZE);
        let mut j: usize = 0;
        while j < NIBBLE_TRACK_SIZE
            invariant
                self.wf(),
                track < 35,
                base == track * 6656,
                j <= 6656,
                out@ =~= self.nibble_data@.subrange(base as int, base + j),
            decreases 6656 - j,
        {
            out.push(self.nibble_data[base + j]);
            j = j + 1;
        }
        out
    }

    /// Whether some track holds unsynchronized nibble writes.
    pub fn any_track_dirty(&self) -> (r: bool)
        requires
            self.wf(),
        ensures
            r == any_dirty(self.dirty_tracks@),
    {
        let mut any = false;
        let mut t: usize = 0;
        while t < TRACK_COUNT
            invariant
                self.wf(),
                t <= 35,
                any == exists|k: int| 0 <= k < t && self.dirty_tracks@[k],
            decreases 35 - t,
        {
            if self.dirty_tracks[t] {
                any = true;
            }
            t = t + 1;
        }
        any
    }

    /// Decode the dirty tracks back into the .dsk image. Returns whether
    /// tracks were decoded (and then the dirty state is cleared).
    pub fn sync_to_raw(&mut self) -> (res: Result<bool, Error>)
        requires
            old(self).wf(),
        ensures
            res == sync_result(*old(self)),
            synced(*old(self), *final(self)),
            final(self).wf(),
    {
        if !self.has_disk || !self.dirty {
            return Ok(false);
        }
        if self.write_protected {
            return Err(Error::DiskWriteProtected);
        }
        if self.raw_data.is_none() {
            return Err(Error::DiskNotLoaded);
        }

        let any = self.any_track_dirty();
        if !any {
            self.dirty = false;
            return Ok(false);
        }

        let ghost s0 = *self;
        let mut raw = self.raw_data.take().unwrap();
        let ghost raw0 = raw@;
        let ghost nib = self.nibble_data@;
        let ghost dirty = self.dirty_tracks@;
        let mut track: usize = 0;
        while track < TRACK_COUNT
            invariant
                self.nibble_data == s0.nibble_data,
                self.dirty_tracks == s0.dirty_tracks,
                self.byte_position == s0.byte_position,
                self.has_disk == s0.has_disk,
                self.write_protected == s0.write_protected,
                self.dirty == s0.dirty,
                s0 == *old(self),
                s0.wf(),
                s0.raw_data is Some,
                raw0 == s0.raw_data->0@,
                s0.has_disk && s0.dirty && !s0.write_protected,
                any_dirty(s0.dirty_tracks@),
                self.nibble_data@ == nib,
                self.dirty_tracks@ == dirty,
                self.raw_data is None,
                nib.len() == 35 * 6656,
                dirty.len() == 35,
                raw@.len() == DSK_SIZE,
                track <= 35,
                sync_from(nib, dirty, raw0, 0) == sync_from(nib, dirty, raw@, track as int),
            decreases 35 - track,
        {
            if self.dirty_tracks[track] {
                let nibbles = self.track_nibbles(track);
                let ghost rb = raw@;
                let r = decode_nibblized_track(nibbles.as_slice(), &mut raw, track);
                match r {
                    Ok(()) => {},
                    Err(e) => {
                        assert(!scan_track(track_of(nib, track as int), 0, 0, rb, track as int).0);
                        assert(sync_from(nib, dirty, rb, track as int) == (Some(track as int), raw@));
                        self.raw_data = Some(raw);
                        return Err(e);
                    },
                }
            }
            track = track + 1;
        }
        self.raw_data = Some(raw);

        let mut k: usize = 0;
        while k < TRACK_COUNT
            invariant
                self.dirty_tracks@.len() == 35,
                self.nibble_data == s0.nibble_data,
                self.byte_position == s0.byte_position,
                self.has_disk == s0.has_disk,
                self.write_protected == s0.write_protected,
                s0 == *old(self),
                s0.wf(),
                sync_from(s0.nibble_data@, s0.dirty_tracks@, s0.raw_data->0@, 0).0 is None,
                self.raw_data matches Some(r) && r@ == sync_from(s0.nibble_data@, s0.dirty_tracks@, s0.raw_data->0@, 0).1 && r@.len() == DSK_SIZE,
                k <= 35,
                forall|j: int| 0 <= j < k ==> !self.dirty_tracks@[j],
            decreases 35 - k,
        {
            self.dirty_tracks.set(k, false);
            k = k + 1;
        }
        self.dirty = false;
        Ok(true)
    }
    /// The head position after one byte passed under it.
    pub open spec fn next_position(pos: usize) -> usize {
        if pos + 1 >= NIBBLE_TRACK_SIZE { 0 } else { (pos + 1) as usize }
    }

    /// Read the nibble under the head in `track` and advance rotation
    /// (0 when there is no disk).
    pub fn read_nibble(&mut self, track: usize) -> (val: u8)
        requires
            old(self).wf(),
            track < TRACK_COUNT,
        ensures
            final(self).wf(),
            nibble_read(*old(self), *final(self), track as int, val),
    {
        if !self.has_disk {
            return 0;
        }
        let val = self.nibble_data[track * NIBBLE_TRACK_SIZE + self.byte_position];
        self.byte_position = self.byte_position + 1;
        if self.byte_position >= NIBBLE_TRACK_SIZE {
            self.byte_position = 0;
        }
        val
    }

    /// Write a nibble under the head in `track` and advance rotation, when
    /// a writable disk is in and the motor runs; the track becomes dirty.
    pub fn write_nibble(&mut self, track: usize, val: u8, motor_on: bool)
        requires
            old(self).wf(),
            track < TRACK_COUNT,
        ensures
            final(self).wf(),
            nibble_written(*old(self), *final(self), track as int, val, motor_on),
    {
        if !self.has_disk || self.write_protected || !motor_on {
            return;
        }
        self.nibble_data.set(track * NIBBLE_TRACK_SIZE + self.byte_position, val);
        self.byte_position = self.byte_position + 1;
        if self.byte_position >= NIBBLE_TRACK_SIZE {
            self.byte_position = 0;
        }
        self.dirty = true;
        self.dirty_tracks.set(track, true);
    }

    /// Insert a .dsk image: nibblize all tracks, keep a copy of the image.
    pub fn load_bytes(&mut self, data: &[u8], write_protected: bool)
        requires
            old(self).wf(),
            data@.len() == DSK_SIZE,
        ensures
            final(self).wf(),
            final(self).raw_data matches Some(raw) && raw@ == data@,
            forall|t: int, j: int| 0 <= t < 35 && 0 <= j < 6656 ==>
                #[trigger] final(self).nibble_data@[t * 6656 + j] == track_nibbles(data@, t)[j],
            final(self).has_disk,
            final(self).write_protected == write_protected,
            final(self).byte_position == 0,
            !final(self).dirty,
            forall|t: int| 0 <= t < 35 ==> !final(self).dirty_tracks@[t],
    {
        nibblize_disk(data, &mut self.nibble_data);
        let mut raw: Vec<u8> = Vec::with_capacity(DSK_SIZE);
        raw.extend_from_slice(data);
        self.raw_data = Some(raw);
        self.has_disk = true;
        self.write_protected = write_protected;
        self.byte_position = 0;
        self.dirty = false;
        let ghost s1 = *self;
        let mut k: usize = 0;
        while k < TRACK_COUNT
            invariant
                self.dirty_tracks@.len() == 35,
                self.nibble_data == s1.nibble_data,
                self.raw_data == s1.raw_data,
                self.has_disk == s1.has_disk,
                self.write_protected == s1.write_protected,
                self.byte_position == s1.byte_position,
                self.dirty == s1.dirty,
                k <= 35,
                forall|j: int| 0 <= j < k ==> !self.dirty_tracks@[j],
            decreases 35 - k,
        {
            self.dirty_tracks.set(k, false);
            k = k + 1;
        }
    }

    /// Read a 256-byte logical sector of the image, if there is an image.
    pub fn read_sector(&self, track: usize, sector: usize) -> (res: Option<[u8; 256]>)
        requires
            self.wf(),
            track < TRACK_COUNT,
            sector < SECTORS_PER_TRACK,
        ensures
            self.raw_data is None ==> res is None,
            self.raw_data matches Some(raw) ==> res matches Some(buf)
                && buf@ == sector_data(raw@, track as int, sector as int),
    {
        match &self.raw_data {
            None => None,
            Some(raw) => {
                let offset = (track * SECTORS_PER_TRACK + sector) * 256;
                let mut buf = [0u8; 256];
                let mut i: usize = 0;
                while i < 256
                    invariant
                        raw@.len() == DSK_SIZE,
                        offset + 256 <= DSK_SIZE,
                        i <= 256,
                        forall|k: int| 0 <= k < i ==> buf@[k] == raw@[offset + k],
                    decreases 256 - i,
                {
                    buf[i] = raw[offset + i];
                    i = i + 1;
                }
                assert(buf@ =~= sector_data(raw@, track as int, sector as int));
                Some(buf)
            },
        }
    }

    /// Write a 256-byte logical sector into the image and re-nibblize its
    /// track; the track is then clean and so is the drive.
    pub fn write_sector(&mut self, track: usize, sector: usize, data: &[u8; 256]) -> (res: Result<(), Error>)
        requires
            old(self).wf(),
            track < TRACK_COUNT,
            sector < SECTORS_PER_TRACK,
        ensures
            final(self).wf(),
            !old(self).has_disk ==> res == Err::<(), Error>(Error::DiskNotLoaded) && *final(self) == *old(self),
            old(self).has_disk && old(self).write_protected ==> res == Err::<(), Error>(Error::DiskWriteProtected) && *final(self) == *old(self),
            old(self).has_disk && !old(self).write_protected && old(self).raw_data is None ==>
                res == Err::<(), Error>(Error::DiskNotLoaded) && *final(self) == *old(self),
            old(self).has_disk && !old(self).write_protected && old(self).raw_data is Some ==> {
                let raw2 = write_sector_bytes(old(self).raw_data->0@, sector_offset(track as int, sector as int), data@);
                &&& res is Ok
                &&& final(self).raw_data matches Some(r) && r@ == raw2
                &&& forall|i: int| 0 <= i < 35 * 6656 ==> #[trigger] final(self).nibble_data@[i] == (
                    if track * 6656 <= i < track * 6656 + 6656 { track_nibbles(raw2, track as int)[i - track * 6656] }
                    else { old(self).nibble_data@[i] })
                &&& final(self).dirty_tracks@ == old(self).dirty_tracks@.update(track as int, false)
                &&& final(self).dirty == any_dirty(final(self).dirty_tracks@)
                &&& final(self).has_disk && !final(self).write_protected
                &&& final(self).byte_position == old(self).byte_position
            },
    {
        if !self.has_disk {
            return Err(Error::DiskNotLoaded);
        }
        if self.write_protected {
            return Err(Error::DiskWriteProtected);
        }
        let mut raw = match self.raw_data.take() {
            Some(r) => r,
            None => {
                return Err(Error::DiskNotLoaded);
            },
        };
        let offset = (track * SECTORS_PER_TRACK + sector) * 256;
        let ghost before = raw@;
        let ghost s0 = *self;
        let mut i: usize = 0;
        while i < 256
            invariant
                *self == s0,
                raw@.len() == DSK_SIZE,
                before.len() == DSK_SIZE,
                offset + 256 <= DSK_SIZE,
                offset == sector_offset(track as int, sector as int),
                i <= 256,
                forall|k: int| 0 <= k < DSK_SIZE ==> raw@[k] == (
                    if offset <= k < offset + i { data@[k - offset] } else { before[k] }),
            decreases 256 - i,
        {
            raw.set(offset + i, data[i]);
            i = i + 1;
        }
        assert(raw@ =~= write_sector_bytes(before, offset as int, data@));
        let nib = nibblize_track(raw.as_slice(), track);
        let base = track * NIBBLE_TRACK_SIZE;
        let ghost nib0 = self.nibble_data@;
        let mut j: usize = 0;
        while j < NIBBLE_TRACK_SIZE
            invariant
                self.raw_data == s0.raw_data,
                self.dirty_tracks == s0.dirty_tracks,
                self.has_disk == s0.has_disk,
                self.write_protected == s0.write_protected,
                self.byte_position == s0.byte_position,
                self.dirty == s0.dirty,
                track < 35,
                base == track * 6656,
                nib@.len() == 6656,
                j <= 6656,
                nib0.len() == 35 * 6656,
                self.nibble_data@.len() == 35 * 6656,
                forall|i: int| 0 <= i < 35 * 6656 ==> #[trigger] self.nibble_data@[i] == (
                    if base <= i < base + j { nib@[i - base] } else { nib0[i] }),
            decreases 6656 - j,
        {
            self.nibble_data.set(base + j, nib[j]);
            j = j + 1;
        }
        self.raw_data = Some(raw);
        self.dirty_tracks.set(track, false);
        // Nibble writes on other tracks still wait for their sync.
        self.dirty = self.any_track_dirty();
        Ok(())
    }
}

} // verus!
