//! Names the target a program was built for, as one line of text, and keeps
//! the books for handing that text to a foreign caller as an address and a
//! byte count, and for taking it back.
//!
//! Nothing here touches memory through an address: the functions say which
//! text is handed out, which length describes it, and which block is to be
//! given back. Taking the address of the text and returning the block to the
//! allocator is left to the caller.

pub mod descriptor;
pub mod laws;
pub mod release;
pub mod report;

pub use descriptor::FFISlice;
pub use release::free_string;
pub use release::released;
pub use release::Block;
pub use report::arch_os;
pub use report::target_name;
