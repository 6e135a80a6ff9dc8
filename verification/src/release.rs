//! What is given back to the allocator when a text is released.

use vstd::prelude::*;

verus! {

/// A block of memory as an allocator knows it: where it starts, its size in
/// bytes and the alignment it was made with.
#[derive(Clone, Copy, Debug, PartialEq, Eq, Structural)]
pub struct Block {
    /// The address of the first byte.
    pub ptr: usize,
    /// The size in bytes.
    pub size: usize,
    /// The alignment in bytes.
    pub align: usize,
}

impl Block {
    /// The addresses of the bytes of the block.
    pub open spec fn span(&self) -> Set<int> {
        Set::new(|a: int| self.ptr <= a < self.ptr + self.size)
    }
}

/// The block that releasing the pair `ptr`, `len` gives back: `len` bytes
/// from `ptr` on, aligned to single bytes.
pub open spec fn released(ptr: usize, len: usize) -> Block {
    Block { ptr, size: len, align: 1 }
}

/// Says which block is to be given back to the allocator for the text that
/// was handed out at address `ptr` with length `len`. The pair is taken as
/// it comes: whether a text was ever handed out under it is the caller's
/// affair, and so is giving each text back once only.
pub fn free_string(ptr: usize, len: usize) -> (block: Block)
    ensures
        block == released(ptr, len),
{
    Block { ptr, size: len, align: 1 }
}

} // verus!
