//! String-ownership records for a foreign-function boundary between native
//! code and an in-process managed runtime.
//!
//! Strings cross the boundary in one of three fixed-layout records: an owned
//! UTF-16 buffer ([`OwnedUtf16String`]), an owned UTF-8 buffer
//! ([`OwnedString`]), and a read-only borrowed UTF-16 view
//! ([`UnownedUtf16String`]). Every owned record carries, besides its data and
//! bounds, a tag for the exact deallocation routine paired with the allocator
//! that produced it ([`FreeFn`]), so the receiving side can release the memory
//! without knowing whose allocator made it.
//!
//! This crate holds the verified core: the record types with their
//! `length <= capacity` and allocator-pairing invariants, and the UTF-16 and
//! UTF-8 encoding and lossy decoding that the conversions perform. The raw
//! transport across the boundary (leaking a vector into a pointer, rebuilding
//! it from one) is the unverifiable edge and lives outside this crate.

pub mod borrowed_utf16;
pub mod free_fn;
pub mod owned_utf16;
pub mod owned_utf8;
pub mod utf16;
pub mod utf8_lossy;

pub use borrowed_utf16::UnownedUtf16String;
pub use free_fn::FreeFn;
pub use owned_utf16::OwnedUtf16String;
pub use owned_utf8::OwnedString;
