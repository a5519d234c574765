//! A memory of 4096 bytes.

use vstd::prelude::*;

verus! {

/// Number of addressable bytes.
pub const MEMORY_SIZE: usize = 4096;

/// A flat memory of 4096 bytes.
pub struct RAM {
    pub mem: [u8; 4096],
}

impl View for RAM {
    type V = Seq<u8>;

    open spec fn view(&self) -> Seq<u8> {
        self.mem@
    }
}

/// `mem` with the bytes of `src` written over it from `offset` on.
pub open spec fn overlay(mem: Seq<u8>, src: Seq<u8>, offset: int) -> Seq<u8> {
    Seq::new(
        mem.len(),
        |k: int| if offset <= k < offset + src.len() { src[k - offset] } else { mem[k] },
    )
}

impl RAM {
    /// A memory whose bytes are all zero.
    pub fn new() -> (ram: RAM)
        ensures
            ram@.len() == MEMORY_SIZE,
            forall|k: int| 0 <= k < MEMORY_SIZE ==> ram@[k] == 0,
    {
        RAM { mem: [0;4096] }
    }

    /// The byte at `position`.
    pub fn read_byte(&self, position: usize) -> (value: u8)
        requires
            position < MEMORY_SIZE,
        ensures
            value == self@[position as int],
    {
        self.mem[position]
    }

    /// Stores `value` at `position` and leaves every other byte as it was.
    pub fn write_byte(&mut self, position: usize, value: u8)
        requires
            position < MEMORY_SIZE,
        ensures
            final(self)@ == old(self)@.update(position as int, value),
    {
        self.mem[position] = value;
    }

    /// Copies `src` into memory from `offset` on; the bytes outside that range stay.
    pub fn mem_cpy(&mut self, src: &[u8], offset: usize)
        requires
            offset + src@.len() <= MEMORY_SIZE,
        ensures
            final(self)@ == overlay(old(self)@, src@, offset as int),
    {
        let n: usize = src.len();
        let mut k: usize = 0;
        while k < n
            invariant
                n == src@.len(),
                offset + n <= MEMORY_SIZE,
                k <= n,
                self@ == overlay(old(self)@, src@.take(k as int), offset as int),
            decreases n - k,
        {
            self.mem[offset + k] = src[k];
            k += 1;
        }
        assert(src@.take(n as int) == src@);
    }
}

} // verus!
