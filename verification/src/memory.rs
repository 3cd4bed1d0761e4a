//! A fixed-size, byte-addressable memory covering the full 16-bit address
//! space. Because every address is a `u16` and the array holds exactly
//! 65536 bytes, no access can ever be out of bounds.

use vstd::prelude::*;

verus! {

/// Number of addressable bytes: the whole 16-bit address space.
pub const MEM_SIZE: usize = 65536;

/// Whether every byte of a memory image is zero.
pub open spec fn all_zero(mem: Seq<u8>) -> bool {
    forall|i: int| 0 <= i < mem.len() ==> mem[i] == 0
}

/// A flat array of bytes, one per 16-bit address. Its length is fixed at
/// construction and never changes.
pub struct Memory {
    data: Vec<u8>,
}

impl View for Memory {
    type V = Seq<u8>;

    closed spec fn view(&self) -> Seq<u8> {
        self.data@
    }
}

impl Memory {
    /// The structural invariant: the array spans the whole address space,
    /// so any `u16` address is a valid index.
    pub open spec fn inv(&self) -> bool {
        self@.len() == MEM_SIZE
    }

    /// A zero-filled memory.
    pub fn new() -> (m: Memory)
        ensures
            m.inv(),
            all_zero(m@),
    {
        let mut data: Vec<u8> = Vec::new();
        while data.len() < MEM_SIZE
            invariant
                data@.len() <= MEM_SIZE,
                all_zero(data@),
            decreases MEM_SIZE - data@.len(),
        {
            data.push(0);
        }
        Memory { data }
    }

    /// Overwrites every byte with zero, in place. The length is unchanged.
    pub fn reset(&mut self)
        requires
            old(self).inv(),
        ensures
            final(self).inv(),
            all_zero(final(self)@),
    {
        let mut i: usize = 0;
        while i < MEM_SIZE
            invariant
                i <= MEM_SIZE,
                self@.len() == MEM_SIZE,
                forall|j: int| 0 <= j < i ==> self@[j] == 0,
            decreases MEM_SIZE - i,
        {
            self.data[i] = 0;
            i = i + 1;
        }
    }

    /// The byte stored at `address`.
    pub fn read(&self, address: u16) -> (value: u8)
        requires
            self.inv(),
        ensures
            value == self@[address as int],
    {
        self.data[address as usize]
    }

    /// Stores `value` at `address`; no other byte changes.
    pub fn write(&mut self, address: u16, value: u8)
        requires
            old(self).inv(),
        ensures
            final(self).inv(),
            final(self)@ == old(self)@.update(address as int, value),
    {
        self.data[address as usize] = value;
    }
}

} // verus!
