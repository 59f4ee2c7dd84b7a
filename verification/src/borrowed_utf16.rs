//! The borrowed UTF-16 view record.

use crate::free_fn::FreeFn;
use crate::utf16::{decode_utf16_lossy, decode_utf16_lossy_units};
use vstd::prelude::*;

verus! {

/// A read-only view of a UTF-16 string that the managed runtime owns and has
/// pinned, passed into the native side without copying.
///
/// On the wire the record is `{ data, length, free-fn }` with a signed
/// 32-bit length and a free-fn taking only the data pointer: releasing the
/// view hands the pointer back to the managed side, which keeps its own pin
/// bookkeeping. Here `units` stands for the pinned code units readable
/// through the data pointer; the type invariant keeps the length field equal
/// to their count and the free-fn tag pinned to the managed routine. The
/// native side never constructs this record itself; [`Self::new`] plays the
/// managed side, which pins a string and exposes its pointer and length.
pub struct UnownedUtf16String {
    units: Vec<u16>,
    len: i32,
    free: FreeFn,
}

impl View for UnownedUtf16String {
    type V = Seq<u16>;

    closed spec fn view(&self) -> Seq<u16> {
        self.units@
    }
}

impl UnownedUtf16String {
    /// Every reachable view keeps its signed 32-bit length field equal to
    /// the number of pinned code units, and its free-fn tag immutably set to
    /// the managed unpin routine.
    #[verifier::type_invariant]
    pub closed spec fn wf(self) -> bool {
        0 <= self.len && self.len as int == self.units@.len() && self.free == FreeFn::ManagedPin
    }

    /// The free-fn tag embedded in the record.
    pub closed spec fn spec_free_fn(self) -> FreeFn {
        self.free
    }

    /// Pins the given code units and exposes them as a borrowed view, as the
    /// managed side does when it passes a string inward. The wire format
    /// bounds the length field to a signed 32-bit value.
    pub fn new(units: Vec<u16>) -> (r: Self)
        requires
            units@.len() <= 0x7fffffff,
        ensures
            r@ == units@,
    {
        let len = units.len() as i32;
        UnownedUtf16String { units, len, free: FreeFn::ManagedPin }
    }

    /// Decodes the viewed units to native text, replacing invalid sequences
    /// rather than rejecting them. The view is only read: it stays valid,
    /// unchanged, and can be converted again with the same result.
    pub fn to_text(&self) -> (r: String)
        ensures
            r@ == decode_utf16_lossy(self@),
    {
        decode_utf16_lossy_units(&self.units)
    }

    /// The value of the signed 32-bit length field: the number of viewed
    /// code units.
    pub fn len(&self) -> (r: i32)
        ensures
            r as int == self@.len(),
    {
        proof {
            use_type_invariant(self);
        }
        self.len
    }

    /// The embedded free-fn tag: always the managed unpin routine.
    pub fn free_fn(&self) -> (r: FreeFn)
        ensures
            r == self.spec_free_fn(),
            r == FreeFn::ManagedPin,
    {
        proof {
            use_type_invariant(self);
        }
        self.free
    }

    /// Read-only access to the viewed code units, as the native side reads
    /// them through the pinned data pointer.
    pub fn units(&self) -> (r: &Vec<u16>)
        ensures
            r@ == self@,
    {
        &self.units
    }

    /// Releases the view exactly once, as the native side does when the
    /// binding goes out of scope: the embedded free-fn receives the data
    /// pointer alone and the managed side unpins the string. The pointer
    /// must never be read again afterwards, which holding the units inside
    /// the consumed record makes unrepresentable.
    pub fn release(self) {
        let UnownedUtf16String { units, len: _, free: _ } = self;
        // Handing the units back stands for the managed side reclaiming
        // its pinned string through the routine FreeFn::ManagedPin names.
        let _ = units;
    }
}

/// Borrowed-view non-ownership: converting a view reads it through a shared
/// borrow, so the view and its pinned units stay as they were, and any two
/// conversions of the same view yield the same text.
pub proof fn lemma_to_text_repeatable(v: &UnownedUtf16String, first: Seq<char>, second: Seq<char>)
    requires
        first == decode_utf16_lossy(v@),
        second == decode_utf16_lossy(v@),
    ensures
        first == second,
{
}

impl From<UnownedUtf16String> for String {
    /// Reads the view into native text, then releases it: the one-step
    /// receiving path for a string that is only needed once.
    fn from(v: UnownedUtf16String) -> (r: String)
        ensures
            r@ == decode_utf16_lossy(v@),
    {
        let s = v.to_text();
        v.release();
        s
    }
}

impl vstd::std_specs::convert::FromSpecImpl<UnownedUtf16String> for String {
    open spec fn obeys_from_spec() -> bool {
        false
    }

    open spec fn from_spec(v: UnownedUtf16String) -> String {
        arbitrary()
    }
}

} // verus!
