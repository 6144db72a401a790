//! The ownership core of a binding to the LLVM C API.
//!
//! The native library hands out opaque handles and keeps pointers into memory
//! that the caller allocated: names, target triples, the bytes behind a
//! memory buffer. This crate decides which allocations each handle needs,
//! keeps them with the handle, and moves them along when one handle is made
//! from another. It never touches the native library itself. Every operation
//! is split at the native call: one function says what to ask of the native
//! layer, as a [`native::NativeCall`], and another takes the answer. A driver
//! outside this crate makes the calls.

use vstd::prelude::*;

pub mod buffer;
pub mod module;
pub mod native;
pub mod pass;
pub mod target;
pub mod text;

use crate::text::CText;

verus! {

/// An allocation that is kept only so that a pointer held by the native layer
/// stays good: text (`A`) or bytes (`B`).
#[derive(Debug, PartialEq, Eq)]
pub enum Buffers {
    A(CText),
    B(Vec<u8>),
}

/// What an allocation holds.
pub enum Entry {
    /// Text, without the NUL that ends it in memory.
    Name(Seq<u8>),
    Bytes(Seq<u8>),
}

impl View for Buffers {
    type V = Entry;

    open spec fn view(&self) -> Entry {
        match self {
            Buffers::A(text) => Entry::Name(text@),
            Buffers::B(bytes) => Entry::Bytes(bytes@),
        }
    }
}

/// What a collection of allocations holds, in its order.
pub open spec fn entries(held: Seq<Buffers>) -> Seq<Entry> {
    held.map_values(|b: Buffers| b@)
}

} // verus!
