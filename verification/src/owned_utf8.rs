//! The owned UTF-8 buffer record.
//!
//! Preferred over the UTF-16 record when native text is the producer: native
//! text is already UTF-8 in memory, so building this record takes one
//! allocation and one encoding pass instead of two allocations, and the
//! managed side performs its own single decode on receipt.

use crate::free_fn::FreeFn;
use crate::utf8_lossy::{decode_utf8_lossy, lemma_decode_utf8_lossy_exact};
use vstd::prelude::*;
use vstd::utf8::{
    decode_utf8, decode_utf8_encode_utf8, encode_utf8, encode_utf8_decode_utf8,
    encode_utf8_valid_utf8, valid_utf8,
};

verus! {

/// A native-allocated UTF-8 buffer, transferred by value across the
/// foreign-function boundary. In-place mutation is not recommended, since a
/// byte-level edit can break the encoding.
///
/// On the wire the record is `{ data, length, capacity, free-fn }`, indexed
/// in bytes. Here `bytes` stands for the bytes reachable through the data
/// pointer and implicitly carries the length; the type invariant keeps the
/// bytes a valid UTF-8 encoding, the length within the recorded capacity,
/// and the free-fn tag pinned to the routine matching the native allocator.
pub struct OwnedString {
    bytes: Vec<u8>,
    capacity: usize,
    free: FreeFn,
}

/// Relies on String::capacity: the allocated capacity in bytes is at least
/// the length in bytes, which is the length of the text's UTF-8 encoding.
#[verifier::external_body]
fn string_capacity(s: &String) -> (r: usize)
    ensures
        encode_utf8(s@).len() <= r,
{
    s.capacity()
}

/// Relies on String::into_bytes: it hands out the string's own UTF-8 bytes
/// without copying them.
#[verifier::external_body]
fn string_into_bytes(s: String) -> (r: Vec<u8>)
    ensures
        r@ == encode_utf8(s@),
{
    s.into_bytes()
}

/// Relies on String::from_utf8: it succeeds exactly on valid UTF-8 input,
/// and the returned text's UTF-8 encoding is the input itself.
#[verifier::external_body]
fn string_from_utf8(bytes: Vec<u8>) -> (r: Option<String>)
    ensures
        r is Some <==> valid_utf8(bytes@),
        r matches Some(s) ==> encode_utf8(s@) == bytes@,
{
    match String::from_utf8(bytes) {
        Ok(s) => Some(s),
        Err(_) => None,
    }
}

impl View for OwnedString {
    type V = Seq<u8>;

    closed spec fn view(&self) -> Seq<u8> {
        self.bytes@
    }
}

impl OwnedString {
    /// Capacity invariant: every reachable record keeps its length at most
    /// its recorded capacity, its bytes valid UTF-8, and its free-fn tag
    /// immutably set to the native UTF-8 routine.
    #[verifier::type_invariant]
    pub closed spec fn wf(self) -> bool {
        self.bytes@.len() <= self.capacity && valid_utf8(self.bytes@) && self.free
            == FreeFn::Utf8Bytes
    }

    /// The text the bytes encode.
    pub open spec fn text(self) -> Seq<char> {
        decode_utf8(self@)
    }

    /// The recorded capacity, in bytes.
    pub closed spec fn spec_capacity(self) -> usize {
        self.capacity
    }

    /// The free-fn tag embedded in the record.
    pub closed spec fn spec_free_fn(self) -> FreeFn {
        self.free
    }

    /// Builds an owned UTF-8 buffer from native text. The text's own
    /// backing storage becomes the buffer, so construction allocates
    /// nothing and re-encodes nothing; the record notes the allocation's
    /// capacity and the matching free-fn.
    pub fn from_text(s: String) -> (r: Self)
        ensures
            r@ == encode_utf8(s@),
            r.text() == s@,
    {
        proof {
            broadcast use encode_utf8_valid_utf8, encode_utf8_decode_utf8;

        }
        let capacity = string_capacity(&s);
        let bytes = string_into_bytes(s);
        OwnedString { bytes, capacity, free: FreeFn::Utf8Bytes }
    }

    /// Consumes the buffer and turns its bytes back into native text. The
    /// invariant keeps the bytes valid UTF-8, so the lossy decoding the
    /// boundary prescribes is here the exact one, and the backing storage
    /// is reused as the text's own.
    pub fn into_text(self) -> (r: String)
        ensures
            r@ == self.text(),
            r@ == decode_utf8_lossy(self@),
            encode_utf8(r@) == self@,
    {
        proof {
            use_type_invariant(&self);
            lemma_decode_utf8_lossy_exact(self@);
            broadcast use encode_utf8_decode_utf8, decode_utf8_encode_utf8;

        }
        let OwnedString { bytes, capacity: _, free: _ } = self;
        string_from_utf8(bytes).unwrap()
    }

    /// The logical length, in bytes; never more than the capacity.
    pub fn len(&self) -> (r: usize)
        ensures
            r == self@.len(),
            r <= self.spec_capacity(),
    {
        proof {
            use_type_invariant(self);
        }
        self.bytes.len()
    }

    /// The recorded capacity: the buffer's true allocated size, which must
    /// be handed back unchanged on release.
    pub fn capacity(&self) -> (r: usize)
        ensures
            r == self.spec_capacity(),
            self@.len() <= r,
    {
        proof {
            use_type_invariant(self);
        }
        self.capacity
    }

    /// The embedded free-fn tag: always the native UTF-8 routine.
    pub fn free_fn(&self) -> (r: FreeFn)
        ensures
            r == self.spec_free_fn(),
            r == FreeFn::Utf8Bytes,
    {
        proof {
            use_type_invariant(self);
        }
        self.free
    }

    /// Read-only access to the bytes, as the receiving side sees them
    /// through the data pointer.
    pub fn bytes(&self) -> (r: &Vec<u8>)
        ensures
            r@ == self@,
    {
        &self.bytes
    }

    /// Dissolves the record into its backing bytes, recorded capacity and
    /// free-fn tag, for the boundary layer that moves it across by value.
    pub fn into_parts(self) -> (r: (Vec<u8>, usize, FreeFn))
        ensures
            r.0@ == self@,
            r.1 == self.spec_capacity(),
            r.0@.len() <= r.1,
            r.2 == self.spec_free_fn(),
            r.2 == FreeFn::Utf8Bytes,
    {
        proof {
            use_type_invariant(&self);
        }
        let OwnedString { bytes, capacity, free } = self;
        (bytes, capacity, free)
    }

    /// Releases the buffer exactly once through its embedded free-fn. The
    /// caller hands back the length and capacity exactly as received: the
    /// boundary contract declares an altered pair undefined behavior, so it
    /// is excluded here rather than defended against at run time. Taking the
    /// record by value makes a second release unrepresentable.
    pub fn release(self, len: usize, capacity: usize)
        requires
            len == self@.len(),
            capacity == self.spec_capacity(),
    {
        // Dropping the vector returns the allocation to the native
        // allocator, which is the routine FreeFn::Utf8Bytes names.
        let OwnedString { bytes, capacity: _, free: _ } = self;
        let _ = bytes;
    }
}

impl From<String> for OwnedString {
    /// Same conversion as [`OwnedString::from_text`].
    fn from(s: String) -> (r: Self)
        ensures
            r@ == encode_utf8(s@),
            r.text() == s@,
    {
        OwnedString::from_text(s)
    }
}

impl vstd::std_specs::convert::FromSpecImpl<String> for OwnedString {
    open spec fn obeys_from_spec() -> bool {
        false
    }

    open spec fn from_spec(s: String) -> Self {
        arbitrary()
    }
}

impl From<OwnedString> for String {
    /// Same conversion as [`OwnedString::into_text`].
    fn from(b: OwnedString) -> (r: String)
        ensures
            r@ == b.text(),
            encode_utf8(r@) == b@,
    {
        b.into_text()
    }
}

impl vstd::std_specs::convert::FromSpecImpl<OwnedString> for String {
    open spec fn obeys_from_spec() -> bool {
        false
    }

    open spec fn from_spec(b: OwnedString) -> String {
        arbitrary()
    }
}

} // verus!
