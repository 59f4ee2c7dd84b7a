//! UTF-16 encoding and lossy decoding of character sequences.
//!
//! The owned and borrowed UTF-16 records carry their text as UTF-16 code
//! units. [`encode_utf16`] gives the encoding of a character sequence and
//! [`decode_utf16_lossy`] the decoding policy the boundary prescribes:
//! malformed input is never rejected, an unpaired surrogate decodes to the
//! replacement character. [`lemma_utf16_round_trip`] shows that decoding
//! inverts encoding on every character sequence.

use vstd::prelude::*;
use vstd::string::StrSliceExecFns;
use vstd::utf8::{char_is_scalar, char_u32_cast, is_scalar};

verus! {

/// True when the code unit lies in the high-surrogate range.
pub open spec fn is_high_surrogate(u: u16) -> bool {
    0xd800 <= u <= 0xdbff
}

/// True when the code unit lies in the low-surrogate range.
pub open spec fn is_low_surrogate(u: u16) -> bool {
    0xdc00 <= u <= 0xdfff
}

/// True when the code unit lies in either surrogate range.
pub open spec fn is_surrogate(u: u16) -> bool {
    is_high_surrogate(u) || is_low_surrogate(u)
}

/// The scalar value carried by a high/low surrogate pair.
pub open spec fn combine_surrogates(hi: u16, lo: u16) -> u32
    recommends
        is_high_surrogate(hi),
        is_low_surrogate(lo),
{
    (0x10000 + (hi - 0xd800) * 0x400 + (lo - 0xdc00)) as u32
}

/// The UTF-16 encoding of one character: one code unit for scalars below
/// 0x10000, a surrogate pair for the rest.
pub open spec fn encode_char_utf16(c: char) -> Seq<u16> {
    let v = c as u32;
    if v < 0x10000 {
        seq![v as u16]
    } else {
        seq![(0xd800 + (v - 0x10000) / 0x400) as u16, (0xdc00 + (v - 0x10000) % 0x400) as u16]
    }
}

/// The UTF-16 encoding of a character sequence.
pub open spec fn encode_utf16(s: Seq<char>) -> Seq<u16>
    decreases s.len(),
{
    if s.len() == 0 {
        seq![]
    } else {
        encode_char_utf16(s[0]) + encode_utf16(s.drop_first())
    }
}

/// The character substituted for an unpaired surrogate by lossy decoding.
pub open spec fn replacement_char() -> char {
    '\u{fffd}'
}

/// The lossy UTF-16 decoding of a code-unit sequence: a high surrogate
/// followed by a low surrogate decodes to the combined scalar, any other
/// surrogate to the replacement character, and every remaining unit to the
/// scalar it holds.
pub open spec fn decode_utf16_lossy(u: Seq<u16>) -> Seq<char>
    decreases u.len(),
{
    if u.len() == 0 {
        seq![]
    } else if is_high_surrogate(u[0]) && u.len() >= 2 && is_low_surrogate(u[1]) {
        seq![combine_surrogates(u[0], u[1]) as char] + decode_utf16_lossy(u.skip(2))
    } else if is_surrogate(u[0]) {
        seq![replacement_char()] + decode_utf16_lossy(u.drop_first())
    } else {
        seq![(u[0] as u32) as char] + decode_utf16_lossy(u.drop_first())
    }
}

/// Appending one character extends the encoding by that character's units.
pub proof fn lemma_encode_utf16_push(s: Seq<char>, c: char)
    ensures
        encode_utf16(s.push(c)) == encode_utf16(s) + encode_char_utf16(c),
    decreases s.len(),
{
    if s.len() == 0 {
        assert(encode_utf16(s) =~= Seq::<u16>::empty());
        assert(s.push(c)[0] == c);
        assert(s.push(c).drop_first() =~= s);
        assert(encode_utf16(s.push(c)) == encode_char_utf16(c) + encode_utf16(s));
        assert(encode_char_utf16(c) + encode_utf16(s) =~= encode_utf16(s) + encode_char_utf16(c));
    } else {
        assert(s.push(c)[0] == s[0]);
        assert(s.push(c).drop_first() =~= s.drop_first().push(c));
        lemma_encode_utf16_push(s.drop_first(), c);
        assert(encode_utf16(s) == encode_char_utf16(s[0]) + encode_utf16(s.drop_first()));
        assert(encode_utf16(s.push(c)) == encode_char_utf16(s[0]) + (encode_utf16(s.drop_first())
            + encode_char_utf16(c)));
        assert(encode_char_utf16(s[0]) + (encode_utf16(s.drop_first()) + encode_char_utf16(c))
            =~= (encode_char_utf16(s[0]) + encode_utf16(s.drop_first())) + encode_char_utf16(c));
    }
}

/// Decoding an encoded character followed by any tail yields that character
/// followed by the decoding of the tail.
pub proof fn lemma_decode_encoded_char(c: char, rest: Seq<u16>)
    ensures
        decode_utf16_lossy(encode_char_utf16(c) + rest) == seq![c] + decode_utf16_lossy(rest),
{
    char_is_scalar(c);
    let v = c as u32;
    let w = encode_char_utf16(c) + rest;
    char_u32_cast(c, v);
    if v < 0x10000 {
        assert(w[0] == v as u16);
        assert(!is_surrogate(w[0]));
        assert(w.drop_first() =~= rest);
        assert(decode_utf16_lossy(w) =~= seq![c] + decode_utf16_lossy(rest));
    } else {
        let hi = (0xd800 + (v - 0x10000) / 0x400) as u16;
        let lo = (0xdc00 + (v - 0x10000) % 0x400) as u16;
        assert((v - 0x10000) / 0x400 <= 0x3ff);
        assert(0 <= (v - 0x10000) % 0x400 < 0x400);
        assert(is_high_surrogate(hi));
        assert(is_low_surrogate(lo));
        assert(w[0] == hi);
        assert(w[1] == lo);
        assert(w.len() >= 2);
        assert(combine_surrogates(hi, lo) == v) by {
            vstd::arithmetic::div_mod::lemma_fundamental_div_mod((v - 0x10000) as int, 0x400);
        }
        assert(w.skip(2) =~= rest);
        assert(decode_utf16_lossy(w) =~= seq![c] + decode_utf16_lossy(rest));
    }
}

/// Lossy decoding inverts encoding: every character sequence decodes back to
/// itself. Native text never holds an unpaired surrogate, so the round trip
/// through an owned UTF-16 buffer is exact, not merely lossy.
pub proof fn lemma_utf16_round_trip(s: Seq<char>)
    ensures
        decode_utf16_lossy(encode_utf16(s)) == s,
    decreases s.len(),
{
    if s.len() == 0 {
        assert(encode_utf16(s) =~= Seq::<u16>::empty());
        assert(decode_utf16_lossy(encode_utf16(s)) =~= s);
    } else {
        lemma_decode_encoded_char(s[0], encode_utf16(s.drop_first()));
        lemma_utf16_round_trip(s.drop_first());
        assert(seq![s[0]] + s.drop_first() =~= s);
    }
}

/// A second round trip changes nothing: once a malformed unit sequence has
/// been repaired by lossy decoding, re-encoding the repaired text and
/// decoding it again yields that same text.
pub proof fn lemma_lossy_repair_idempotent(u: Seq<u16>)
    ensures
        decode_utf16_lossy(encode_utf16(decode_utf16_lossy(u))) == decode_utf16_lossy(u),
{
    lemma_utf16_round_trip(decode_utf16_lossy(u));
}

/// Relies on char::from_u32: the result is Some exactly when the value is a
/// Unicode scalar (not a surrogate, at most 0x10FFFF), and the character
/// returned carries that value.
#[verifier::external_body]
pub(crate) fn char_from_u32(v: u32) -> (r: Option<char>)
    ensures
        r is Some <==> is_scalar(v),
        r matches Some(c) ==> c as u32 == v,
{
    char::from_u32(v)
}

/// Relies on String::push: it appends the given character at the end.
#[verifier::external_body]
pub(crate) fn string_push(s: &mut String, c: char)
    ensures
        final(s)@ == old(s)@.push(c),
{
    s.push(c);
}

/// Encodes a native string's characters as UTF-16 code units.
pub fn encode_utf16_units(s: &str) -> (r: Vec<u16>)
    ensures
        r@ == encode_utf16(s@),
{
    let n = s.unicode_len();
    let mut units: Vec<u16> = Vec::new();
    let mut i: usize = 0;
    while i < n
        invariant
            i <= n,
            n == s@.len(),
            units@ == encode_utf16(s@.take(i as int)),
        decreases n - i,
    {
        let c = s.get_char(i);
        proof {
            char_is_scalar(c);
        }
        let v = c as u32;
        if v < 0x10000 {
            units.push(v as u16);
        } else {
            units.push((0xd800 + (v - 0x10000) / 0x400) as u16);
            units.push((0xdc00 + (v - 0x10000) % 0x400) as u16);
        }
        proof {
            lemma_encode_utf16_push(s@.take(i as int), s@[i as int]);
            assert(s@.take(i as int).push(s@[i as int]) =~= s@.take(i as int + 1));
            assert(units@ =~= encode_utf16(s@.take(i as int)) + encode_char_utf16(s@[i as int]));
        }
        i = i + 1;
    }
    proof {
        assert(s@.take(n as int) =~= s@);
    }
    units
}

/// Decodes UTF-16 code units to native text, replacing unpaired surrogates
/// rather than rejecting them.
pub fn decode_utf16_lossy_units(units: &Vec<u16>) -> (r: String)
    ensures
        r@ == decode_utf16_lossy(units@),
{
    let n = units.len();
    let mut out = String::new();
    let mut i: usize = 0;
    proof {
        assert(units@.skip(0) =~= units@);
        assert(Seq::<char>::empty() + decode_utf16_lossy(units@) =~= decode_utf16_lossy(units@));
    }
    while i < n
        invariant
            i <= n,
            n == units@.len(),
            decode_utf16_lossy(units@) == out@ + decode_utf16_lossy(units@.skip(i as int)),
        decreases n - i,
    {
        let ghost tail = units@.skip(i as int);
        proof {
            assert(tail.len() == n - i);
            assert(tail[0] == units@[i as int]);
        }
        let u = units[i];
        if 0xd800 <= u && u <= 0xdbff && i + 1 < n && 0xdc00 <= units[i + 1] && units[i + 1]
            <= 0xdfff {
            let u2 = units[i + 1];
            let scalar = 0x10000 + ((u as u32) - 0xd800) * 0x400 + ((u2 as u32) - 0xdc00);
            let c = char_from_u32(scalar).unwrap();
            string_push(&mut out, c);
            proof {
                assert(tail[1] == units@[i as int + 1]);
                char_u32_cast(c, scalar);
                assert(combine_surrogates(tail[0], tail[1]) == scalar);
                assert(tail.skip(2) =~= units@.skip(i as int + 2));
                assert(decode_utf16_lossy(tail) == seq![c] + decode_utf16_lossy(
                    units@.skip(i as int + 2),
                ));
                assert(out@ + decode_utf16_lossy(units@.skip(i as int + 2))
                    =~= decode_utf16_lossy(units@));
            }
            i = i + 2;
        } else if 0xd800 <= u && u <= 0xdfff {
            string_push(&mut out, '\u{fffd}');
            proof {
                assert(is_surrogate(tail[0]));
                assert(!(is_high_surrogate(tail[0]) && tail.len() >= 2 && is_low_surrogate(
                    tail[1],
                )));
                assert(tail.drop_first() =~= units@.skip(i as int + 1));
                assert(decode_utf16_lossy(tail) == seq![replacement_char()] + decode_utf16_lossy(
                    units@.skip(i as int + 1),
                ));
                assert(out@ + decode_utf16_lossy(units@.skip(i as int + 1))
                    =~= decode_utf16_lossy(units@));
            }
            i = i + 1;
        } else {
            let c = char_from_u32(u as u32).unwrap();
            string_push(&mut out, c);
            proof {
                assert(!is_surrogate(tail[0]));
                char_u32_cast(c, u as u32);
                assert(tail.drop_first() =~= units@.skip(i as int + 1));
                assert(decode_utf16_lossy(tail) == seq![c] + decode_utf16_lossy(
                    units@.skip(i as int + 1),
                ));
                assert(out@ + decode_utf16_lossy(units@.skip(i as int + 1))
                    =~= decode_utf16_lossy(units@));
            }
            i = i + 1;
        }
    }
    proof {
        assert(units@.skip(n as int) =~= Seq::<u16>::empty());
        assert(out@ =~= decode_utf16_lossy(units@));
    }
    out
}

} // verus!
