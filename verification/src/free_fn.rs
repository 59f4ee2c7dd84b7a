//! The shared free-function convention.
//!
//! Every owned record embeds, at the foreign-function boundary, a pointer to
//! the one deallocation routine that matches the allocator which produced its
//! buffer. The receiving side releases the memory only through that embedded
//! routine, never through ambient knowledge of whose heap the buffer lives on.
//! Inside the verified core the routine is identified by the [`FreeFn`] tag;
//! the boundary layer maps each tag to the actual routine's address.

use vstd::prelude::*;

verus! {

/// Identifies the deallocation routine paired with a buffer's allocator.
///
/// A record's tag is fixed when the record is constructed and is the only
/// legitimate way to release its buffer; each record type's invariant pins
/// the tag to the routine that matches how its buffer was allocated.
#[derive(Clone, Copy, Debug, PartialEq, Eq, Structural)]
pub enum FreeFn {
    /// Releases a native vector of UTF-16 code units, given the exact
    /// pointer, length and capacity it was built with.
    Utf16Units,
    /// Releases a native vector of UTF-8 bytes, given the exact pointer,
    /// length and capacity it was built with.
    Utf8Bytes,
    /// Hands a pinned managed string back to the managed runtime, given only
    /// the data pointer; the managed side keeps its own pin bookkeeping.
    ManagedPin,
}

} // verus!
