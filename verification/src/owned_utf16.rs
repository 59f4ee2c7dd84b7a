//! The owned UTF-16 buffer record.

use crate::free_fn::FreeFn;
use crate::utf16::{
    decode_utf16_lossy, decode_utf16_lossy_units, encode_utf16, encode_utf16_units,
    lemma_utf16_round_trip,
};
use vstd::prelude::*;

verus! {

/// A native-allocated, mutable UTF-16 buffer, transferred by value across
/// the foreign-function boundary.
///
/// On the wire the record is `{ data, length, capacity, free-fn }`. Here
/// `units` stands for the code units reachable through the data pointer and
/// implicitly carries the length; the type invariant keeps the length within
/// the recorded capacity and the free-fn tag pinned, for the record's whole
/// lifetime, to the routine matching the native allocator that produced the
/// buffer.
pub struct OwnedUtf16String {
    units: Vec<u16>,
    capacity: usize,
    free: FreeFn,
}

/// Relies on Vec::capacity: the allocated capacity is at least the length.
#[verifier::external_body]
fn vec_capacity<T>(v: &Vec<T>) -> (r: usize)
    ensures
        v@.len() <= r,
{
    v.capacity()
}

impl View for OwnedUtf16String {
    type V = Seq<u16>;

    closed spec fn view(&self) -> Seq<u16> {
        self.units@
    }
}

impl OwnedUtf16String {
    /// Capacity invariant: every reachable record keeps its length at most
    /// its recorded capacity, and its free-fn tag immutably set to the
    /// native UTF-16 routine.
    #[verifier::type_invariant]
    pub closed spec fn wf(self) -> bool {
        self.units@.len() <= self.capacity && self.free == FreeFn::Utf16Units
    }

    /// The recorded capacity, in code units.
    pub closed spec fn spec_capacity(self) -> usize {
        self.capacity
    }

    /// The free-fn tag embedded in the record.
    pub closed spec fn spec_free_fn(self) -> FreeFn {
        self.free
    }

    /// Builds an owned UTF-16 buffer from native text, consuming the text:
    /// the characters are re-encoded as UTF-16 code units and the record
    /// notes the allocation's capacity and the matching free-fn. Decoding
    /// the buffer yields the text again: native text holds no unpaired
    /// surrogate, so the round trip is exact.
    pub fn from_text(s: String) -> (r: Self)
        ensures
            r@ == encode_utf16(s@),
            decode_utf16_lossy(r@) == s@,
    {
        proof {
            lemma_utf16_round_trip(s@);
        }
        let units = encode_utf16_units(s.as_str());
        let capacity = vec_capacity(&units);
        OwnedUtf16String { units, capacity, free: FreeFn::Utf16Units }
    }

    /// Consumes the buffer and decodes its units back to native text,
    /// replacing invalid sequences rather than rejecting them. The backing
    /// storage is reclaimed on this, the originating, side as part of the
    /// conversion, not through the recorded free-fn.
    pub fn into_text(self) -> (r: String)
        ensures
            r@ == decode_utf16_lossy(self@),
    {
        decode_utf16_lossy_units(&self.units)
    }

    /// The logical length, in code units; never more than the capacity.
    pub fn len(&self) -> (r: usize)
        ensures
            r == self@.len(),
            r <= self.spec_capacity(),
    {
        proof {
            use_type_invariant(self);
        }
        self.units.len()
    }

    /// The recorded capacity: the buffer's true allocated size, which must
    /// be handed back unchanged on release.
    pub fn capacity(&self) -> (r: usize)
        ensures
            r == self.spec_capacity(),
            self@.len() <= r,
    {
        proof {
            use_type_invariant(self);
        }
        self.capacity
    }

    /// The embedded free-fn tag: always the native UTF-16 routine.
    pub fn free_fn(&self) -> (r: FreeFn)
        ensures
            r == self.spec_free_fn(),
            r == FreeFn::Utf16Units,
    {
        proof {
            use_type_invariant(self);
        }
        self.free
    }

    /// Overwrites one code unit in place: whichever side holds the buffer
    /// may edit it, as long as length and capacity are respected. Length,
    /// capacity and free-fn all stay as they were.
    pub fn set_unit(&mut self, i: usize, u: u16)
        requires
            i < old(self)@.len(),
        ensures
            final(self)@ == old(self)@.update(i as int, u),
            final(self).spec_capacity() == old(self).spec_capacity(),
            final(self).spec_free_fn() == old(self).spec_free_fn(),
    {
        proof {
            use_type_invariant(&*self);
        }
        self.units[i] = u;
    }

    /// Read-only access to the code units, as the receiving side sees them
    /// through the data pointer.
    pub fn units(&self) -> (r: &Vec<u16>)
        ensures
            r@ == self@,
    {
        &self.units
    }

    /// Dissolves the record into its backing units, recorded capacity and
    /// free-fn tag, for the boundary layer that moves it across by value.
    pub fn into_parts(self) -> (r: (Vec<u16>, usize, FreeFn))
        ensures
            r.0@ == self@,
            r.1 == self.spec_capacity(),
            r.0@.len() <= r.1,
            r.2 == self.spec_free_fn(),
            r.2 == FreeFn::Utf16Units,
    {
        proof {
            use_type_invariant(&self);
        }
        let OwnedUtf16String { units, capacity, free } = self;
        (units, capacity, free)
    }

    /// Releases the buffer exactly once through its embedded free-fn. The
    /// caller hands back the length and capacity exactly as received: the
    /// boundary contract declares an altered pair undefined behavior, so it
    /// is excluded here rather than defended against at run time. Taking the
    /// record by value makes a second release unrepresentable.
    pub fn release(self, len: usize, capacity: usize)
        requires
            len == self@.len(),
            capacity == self.spec_capacity(),
    {
        // Dropping the vector returns the allocation to the native
        // allocator, which is the routine FreeFn::Utf16Units names.
        let OwnedUtf16String { units, capacity: _, free: _ } = self;
        let _ = units;
    }
}

impl From<String> for OwnedUtf16String {
    /// Same conversion as [`OwnedUtf16String::from_text`].
    fn from(s: String) -> (r: Self)
        ensures
            r@ == encode_utf16(s@),
            decode_utf16_lossy(r@) == s@,
    {
        OwnedUtf16String::from_text(s)
    }
}

impl vstd::std_specs::convert::FromSpecImpl<String> for OwnedUtf16String {
    open spec fn obeys_from_spec() -> bool {
        false
    }

    open spec fn from_spec(s: String) -> Self {
        arbitrary()
    }
}

impl From<OwnedUtf16String> for String {
    /// Same conversion as [`OwnedUtf16String::into_text`].
    fn from(b: OwnedUtf16String) -> (r: String)
        ensures
            r@ == decode_utf16_lossy(b@),
    {
        b.into_text()
    }
}

impl vstd::std_specs::convert::FromSpecImpl<OwnedUtf16String> for String {
    open spec fn obeys_from_spec() -> bool {
        false
    }

    open spec fn from_spec(b: OwnedUtf16String) -> String {
        arbitrary()
    }
}

} // verus!
