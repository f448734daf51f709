//! The memory bus seen by the core: byte, halfword and word access in
//! little-endian order.

use std::collections::HashMap;
use vstd::prelude::*;

verus! {

broadcast use vstd::std_specs::hash::group_hash_axioms;

/// `a + k` on the 32-bit address space.
pub open spec fn addr_add(a: u32, k: nat) -> u32 {
    ((a as nat + k) % 0x1_0000_0000) as u32
}

/// The byte at `a`; memory never written holds zero.
pub open spec fn byte_at(m: Map<u32, u8>, a: u32) -> u8 {
    if m.contains_key(a) {
        m[a]
    } else {
        0
    }
}

/// The little-endian halfword at `a`.
pub open spec fn half_at(m: Map<u32, u8>, a: u32) -> u16 {
    (byte_at(m, a) as nat + byte_at(m, addr_add(a, 1)) as nat * 0x100) as u16
}

/// The little-endian word at `a`.
pub open spec fn word_at(m: Map<u32, u8>, a: u32) -> u32 {
    (half_at(m, a) as nat + half_at(m, addr_add(a, 2)) as nat * 0x1_0000) as u32
}

/// `m` with the halfword `v` stored little-endian at `a`.
pub open spec fn store_half(m: Map<u32, u8>, a: u32, v: u16) -> Map<u32, u8> {
    m.insert(a, (v % 0x100) as u8).insert(addr_add(a, 1), (v / 0x100) as u8)
}

/// `m` with the word `v` stored little-endian at `a`.
pub open spec fn store_word(m: Map<u32, u8>, a: u32, v: u32) -> Map<u32, u8> {
    store_half(store_half(m, a, (v % 0x1_0000) as u16), addr_add(a, 2), (v / 0x1_0000) as u16)
}

/// A memory bus. Its contents are a map from address to byte.
pub trait Bus {
    /// The bytes the bus holds.
    spec fn mem(&self) -> Map<u32, u8>;

    fn read8(&self, addr: u32) -> (r: u8)
        ensures
            r == byte_at(self.mem(), addr),
    ;

    fn read16(&self, addr: u32) -> (r: u16)
        ensures
            r == half_at(self.mem(), addr),
    ;

    fn read32(&self, addr: u32) -> (r: u32)
        ensures
            r == word_at(self.mem(), addr),
    ;

    fn write8(&mut self, addr: u32, value: u8)
        ensures
            final(self).mem() == old(self).mem().insert(addr, value),
    ;

    fn write16(&mut self, addr: u32, value: u16)
        ensures
            final(self).mem() == store_half(old(self).mem(), addr, value),
    ;

    fn write32(&mut self, addr: u32, value: u32)
        ensures
            final(self).mem() == store_word(old(self).mem(), addr, value),
    ;
}

/// Sparse memory over the whole address space; unwritten bytes read as zero.
pub struct Ram {
    bytes: HashMap<u32, u8>,
}

impl Ram {
    /// Memory that holds zero everywhere.
    pub fn new() -> (r: Ram)
        ensures
            r.mem() == Map::<u32, u8>::empty(),
    {
        Ram { bytes: HashMap::new() }
    }
}

impl Bus for Ram {
    closed spec fn mem(&self) -> Map<u32, u8> {
        self.bytes@
    }

    fn read8(&self, addr: u32) -> (r: u8) {
        match self.bytes.get(&addr) {
            Some(b) => *b,
            None => 0,
        }
    }

    fn read16(&self, addr: u32) -> (r: u16) {
        let lo = self.read8(addr) as u16;
        let hi = self.read8(addr.wrapping_add(1)) as u16;
        lo + hi * 0x100
    }

    fn read32(&self, addr: u32) -> (r: u32) {
        let lo = self.read16(addr) as u32;
        let hi = self.read16(addr.wrapping_add(2)) as u32;
        lo + hi * 0x1_0000
    }

    fn write8(&mut self, addr: u32, value: u8) {
        self.bytes.insert(addr, value);
    }

    fn write16(&mut self, addr: u32, value: u16) {
        self.write8(addr, (value % 0x100) as u8);
        self.write8(addr.wrapping_add(1), (value / 0x100) as u8);
    }

    fn write32(&mut self, addr: u32, value: u32) {
        self.write16(addr, (value % 0x1_0000) as u16);
        self.write16(addr.wrapping_add(2), (value / 0x1_0000) as u16);
    }
}

} // verus!
