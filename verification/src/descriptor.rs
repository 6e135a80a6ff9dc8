//! The pair of address and length by which a text crosses to a foreign caller.

use vstd::prelude::*;
use vstd::utf8::encode_utf8;

verus! {

/// Describes a buffer of bytes that holds a text in UTF-8: where the buffer
/// starts and how many bytes it holds. No terminator follows the text, so
/// the length alone says where it ends.
#[derive(Clone, Copy, Debug, PartialEq, Eq, Structural)]
pub struct FFISlice {
    /// The address of the first byte.
    pub ptr: usize,
    /// The number of bytes.
    pub len: usize,
}

impl FFISlice {
    /// The addresses of the bytes described: `len` of them, from `ptr` on.
    pub open spec fn span(&self) -> Set<int> {
        Set::new(|a: int| self.ptr <= a < self.ptr + self.len)
    }

    /// Whether this is the descriptor of `text` held at address `ptr`: it
    /// starts there and counts every byte of the text's UTF-8 form, no more.
    pub open spec fn describes(&self, ptr: usize, text: Seq<char>) -> bool {
        &&& self.ptr == ptr
        &&& self.len == encode_utf8(text).len()
    }

    /// Describes `text`, whose bytes the caller holds at address `ptr`.
    pub fn new(ptr: usize, text: &str) -> (slice: FFISlice)
        ensures
            slice.describes(ptr, text@),
    {
        FFISlice { ptr, len: text.as_bytes().len() }
    }
}

} // verus!
