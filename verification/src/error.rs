//! Errors of the emulator core.

use vstd::prelude::*;

verus! {

/// Errors of ROM loading and disk access. (Failures of file I/O belong to
/// the frontends, which read and write the files.)
#[allow(inconsistent_fields)]
#[derive(Debug, Clone, Copy, PartialEq, Eq, Structural)]
pub enum Error {
    UnsupportedRomSize { actual: usize },
    InvalidDiskSize { expected: usize, actual: usize },
    InvalidDiskLocation { drive: usize, track: u8, sector: u8 },
    DiskNotLoaded,
    DiskWriteProtected,
    DiskDecodeFailed { track: usize },
}

} // verus!
