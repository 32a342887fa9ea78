//! The bus through which the CPU reaches memory and devices.

use vstd::prelude::*;

verus! {

/// Byte of the 64K memory image `m` at `addr`.
pub open spec fn mem_at(m: Seq<u8>, addr: u16) -> u8 {
    m[addr as int]
}

/// Little-endian word made of the bytes at `lo_addr` and `hi_addr`.
pub open spec fn word_at(m: Seq<u8>, lo_addr: u16, hi_addr: u16) -> u16 {
    (mem_at(m, lo_addr) as int + 256 * mem_at(m, hi_addr) as int) as u16
}

/// `addr + delta`, wrapped to 16 bits.
pub open spec fn wrap16(v: int) -> u16 {
    (v % 0x10000) as u16
}

/// `v` wrapped to 8 bits.
pub open spec fn wrap8(v: int) -> u8 {
    (v % 0x100) as u8
}

/// Address of the high byte of a pointer read with the NMOS page-wrap bug:
/// the low byte of the address wraps inside its page.
pub open spec fn page_wrap_next(addr: u16) -> u16 {
    ((addr as int / 256) * 256 + (addr as int + 1) % 256) as u16
}

/// The CPU communicates with all external devices through a `Bus`.
/// `read` takes `&mut self` because hardware reads can have side effects
/// (a soft switch toggles, a latch clears).
///
/// A bus shows a 64K image (`memory`) and two sets of addresses at which
/// it behaves as plain memory: a read at an address of `plain_reads`
/// returns the byte of the image and changes neither the image nor the two
/// sets; a write at an address of `plain_writes` stores the byte in the
/// image and changes neither set.
///
/// Every access also follows the bus's own relations: `read_rel` says which
/// state and value a read leads to, `write_rel` which state a write leads
/// to, `cycle_rel` what telling the cycle count does, and `peek_spec` what
/// a side-effect-free read shows.
pub trait Bus: Sized {
    /// `after` and `val` are a state and a value that a read of `addr`
    /// from this state leads to; a bus that does not say so promises
    /// nothing of its reads.
    open spec fn read_rel(&self, after: Self, addr: u16, val: u8) -> bool {
        true
    }

    /// `after` is a state that writing `val` to `addr` leads to; a bus that
    /// does not say so promises nothing of its writes.
    open spec fn write_rel(&self, after: Self, addr: u16, val: u8) -> bool {
        true
    }

    /// `after` is the state once the bus was told the cycle count `cycle`;
    /// a bus that does not say so promises nothing of it.
    open spec fn cycle_rel(&self, after: Self, cycle: u64) -> bool {
        true
    }

    /// The byte a side-effect-free read of `addr` shows: by default the
    /// byte of the memory image.
    open spec fn peek_spec(&self, addr: u16) -> u8 {
        mem_at(self.memory(), addr)
    }

    /// Addresses whose reads are plain; a bus names none unless it says so.
    open spec fn plain_reads(&self) -> Set<u16> {
        Set::empty()
    }

    /// Addresses whose writes are plain; a bus names none unless it says so.
    open spec fn plain_writes(&self) -> Set<u16> {
        Set::empty()
    }

    /// The memory image that plain accesses see.
    open spec fn memory(&self) -> Seq<u8> {
        Seq::empty()
    }

    /// An invariant of the bus's own state that every access keeps.
    open spec fn inv(&self) -> bool {
        true
    }

    fn read(&mut self, addr: u16) -> (val: u8)
        ensures
            old(self).read_rel(*final(self), addr, val),
            old(self).inv() ==> final(self).inv(),
            old(self).plain_reads().contains(addr) ==> {
                &&& val == mem_at(old(self).memory(), addr)
                &&& final(self).memory() == old(self).memory()
                &&& final(self).plain_reads() == old(self).plain_reads()
                &&& final(self).plain_writes() == old(self).plain_writes()
            },
    ;

    fn write(&mut self, addr: u16, val: u8)
        ensures
            old(self).write_rel(*final(self), addr, val),
            old(self).inv() ==> final(self).inv(),
            old(self).plain_writes().contains(addr) ==> {
                &&& final(self).memory() == old(self).memory().update(addr as int, val)
                &&& final(self).plain_reads() == old(self).plain_reads()
                &&& final(self).plain_writes() == old(self).plain_writes()
            },
    ;

    /// Read without side effects.
    fn peek(&self, addr: u16) -> (val: u8)
        ensures
            val == self.peek_spec(addr),
            self.plain_reads().contains(addr) ==> val == mem_at(self.memory(), addr),
    ;

    /// Tell the bus the CPU cycle count at the start of an instruction.
    fn set_cycle(&mut self, cycle: u64)
        ensures
            old(self).cycle_rel(*final(self), cycle),
            old(self).inv() ==> final(self).inv(),
            final(self).memory() == old(self).memory(),
            final(self).plain_reads() == old(self).plain_reads(),
            final(self).plain_writes() == old(self).plain_writes(),
    ;
}

/// After an access, `after` shows the image `m` and the same plain
/// addresses as `before`.
pub open spec fn view_now<B: Bus>(before: B, after: B, m: Seq<u8>) -> bool {
    &&& after.memory() == m
    &&& after.plain_reads() == before.plain_reads()
    &&& after.plain_writes() == before.plain_writes()
}

/// Two reads, of `a1` then `a2`, lead from `b` to `b2` and give the
/// little-endian word `w`.
pub open spec fn word_rel<B: Bus>(b: B, b2: B, a1: u16, a2: u16, w: u16) -> bool {
    exists|mid: B, lo: u8, hi: u8|
        #![trigger b.read_rel(mid, a1, lo), mid.read_rel(b2, a2, hi)]
        b.read_rel(mid, a1, lo) && mid.read_rel(b2, a2, hi) && w == lo + 256 * hi
}

/// Read a little-endian 16-bit word at `addr`, `addr + 1`.
pub fn read_word<B: Bus>(bus: &mut B, addr: u16) -> (w: u16)
    ensures
        word_rel(*old(bus), *final(bus), addr, wrap16(addr + 1), w),
        old(bus).inv() ==> final(bus).inv(),
        old(bus).plain_reads().contains(addr) && old(bus).plain_reads().contains(wrap16(addr + 1)) ==> {
            &&& w == word_at(old(bus).memory(), addr, wrap16(addr + 1))
            &&& view_now(*old(bus), *final(bus), old(bus).memory())
        },
{
    let ghost b0 = *bus;
    let lo = bus.read(addr);
    let ghost mid = *bus;
    let hi = bus.read(addr.wrapping_add(1));
    assert(b0.read_rel(mid, addr, lo) && mid.read_rel(*bus, wrap16(addr + 1), hi));
    make_word(lo, hi)
}

/// Read a 16-bit word with the NMOS 6502 page-wrap bug:
/// if `addr` is $xxFF, the high byte is read from $xx00 instead of $(xx+1)00.
pub fn read_word_page_wrap<B: Bus>(bus: &mut B, addr: u16) -> (w: u16)
    ensures
        word_rel(*old(bus), *final(bus), addr, page_wrap_next(addr), w),
        old(bus).inv() ==> final(bus).inv(),
        old(bus).plain_reads().contains(addr) && old(bus).plain_reads().contains(page_wrap_next(addr)) ==> {
            &&& w == word_at(old(bus).memory(), addr, page_wrap_next(addr))
            &&& view_now(*old(bus), *final(bus), old(bus).memory())
        },
{
    let ghost b0 = *bus;
    let lo = bus.read(addr);
    let ghost mid = *bus;
    let hi_addr = (addr & 0xFF00) | (addr.wrapping_add(1) & 0x00FF);
    proof {
        let n = addr.wrapping_add(1);
        assert(n == wrap16(addr + 1));
        assert((addr & 0xFF00) | (n & 0x00FF) == ((addr / 256) * 256 + (n % 256)) as u16)
            by (bit_vector);
    }
    let hi = bus.read(hi_addr);
    assert(b0.read_rel(mid, addr, lo) && mid.read_rel(*bus, page_wrap_next(addr), hi));
    make_word(lo, hi)
}

/// Little-endian combination of two bytes.
pub fn make_word(lo: u8, hi: u8) -> (w: u16)
    ensures
        w == lo as int + 256 * hi as int,
{
    let w = ((hi as u16) << 8) | (lo as u16);
    assert(((hi as u16) << 8) | (lo as u16) == lo as u16 + 256 * (hi as u16)) by (bit_vector);
    w
}

} // verus!
