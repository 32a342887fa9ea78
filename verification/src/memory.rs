//! Flat 64K RAM: a bus with no devices, used for standalone CPU runs
//! (such as the Klaus Dormann functional test suite).

use vstd::prelude::*;
use crate::bus::Bus;

verus! {

/// 64K of plain memory.
pub struct FlatMemory {
    pub data: [u8; 65536],
}

impl FlatMemory {
    /// All-zero memory.
    pub fn new() -> (m: Self)
        ensures
            m.data@ == Seq::new(65536, |i: int| 0u8),
    {
        let m = FlatMemory { data: [0u8; 65536] };
        assert(m.data@ =~= Seq::new(65536, |i: int| 0u8));
        m
    }

    /// The whole memory as a slice.
    pub fn as_slice(&self) -> (s: &[u8])
        ensures
            s@ == self.data@,
    {
        self.data.as_slice()
    }

    /// The whole memory as a mutable slice.
    pub fn as_mut_slice(&mut self) -> (s: &mut [u8])
        ensures
            s@ == old(self).data@,
            final(s)@ == final(self).data@,
    {
        &mut self.data
    }
}

impl Bus for FlatMemory {
    open spec fn plain_reads(&self) -> Set<u16> {
        Set::full()
    }

    open spec fn plain_writes(&self) -> Set<u16> {
        Set::full()
    }

    open spec fn memory(&self) -> Seq<u8> {
        self.data@
    }

    open spec fn read_rel(&self, after: Self, addr: u16, val: u8) -> bool {
        after.data@ == self.data@ && val == self.data@[addr as int]
    }

    open spec fn write_rel(&self, after: Self, addr: u16, val: u8) -> bool {
        after.data@ == self.data@.update(addr as int, val)
    }

    open spec fn cycle_rel(&self, after: Self, cycle: u64) -> bool {
        after.data@ == self.data@
    }

    open spec fn peek_spec(&self, addr: u16) -> u8 {
        self.data@[addr as int]
    }

    fn read(&mut self, addr: u16) -> (val: u8) {
        self.data[addr as usize]
    }

    fn write(&mut self, addr: u16, val: u8) {
        self.data[addr as usize] = val;
    }

    fn peek(&self, addr: u16) -> (val: u8) {
        self.data[addr as usize]
    }

    fn set_cycle(&mut self, cycle: u64) {
    }
}

} // verus!
