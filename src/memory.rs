//! The memory bus: a sparse 64 KiB address space in which every address
//! that was never written reads as zero.
use vstd::prelude::*;
use std::collections::HashMap;

verus! {

broadcast use vstd::std_specs::hash::group_hash_axioms;

/// The byte at `addr` in a sparse memory map.
pub open spec fn byte_at(mem: Map<u16, u8>, addr: u16) -> u8 {
    if mem.contains_key(addr) {
        mem[addr]
    } else {
        0
    }
}

#[derive(Debug)]
pub struct Memory(HashMap<u16, u8>);

impl View for Memory {
    type V = Map<u16, u8>;

    closed spec fn view(&self) -> Map<u16, u8> {
        self.0@
    }
}

impl Memory {
    pub fn new() -> (r: Memory)
        ensures
            r@ == Map::<u16, u8>::empty(),
    {
        Memory(HashMap::new())
    }

    pub fn read(&self, addr: u16) -> (r: u8)
        ensures
            r == byte_at(self@, addr),
    {
        match self.0.get(&addr) {
            Some(v) => *v,
            Option::None => 0,
        }
    }

    pub fn write(&mut self, addr: u16, val: u8)
        ensures
            final(self)@ == old(self)@.insert(addr, val),
    {
        self.0.insert(addr, val);
    }
}

} // verus!
