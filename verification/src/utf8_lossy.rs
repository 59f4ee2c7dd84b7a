//! Lossy UTF-8 decoding of byte sequences.
//!
//! An owned UTF-8 buffer built on this side always holds valid UTF-8, but
//! one handed back across the boundary may have been edited byte by byte.
//! The boundary policy repairs rather than rejects: [`decode_utf8_lossy`]
//! reads the next well-formed scalar encoding where one starts, and decodes
//! any byte that starts none — a stray continuation byte, a truncated or
//! overlong encoding, an encoded surrogate — to one replacement character.
//! On valid input it agrees with exact decoding
//! ([`lemma_decode_utf8_lossy_exact`]).

use crate::utf16::{char_from_u32, replacement_char, string_push};
use vstd::prelude::*;
use vstd::utf8::{
    char_u32_cast, decode_first_codepoint, decode_first_scalar, decode_utf8, is_scalar,
    length_of_first_codepoint, length_of_first_scalar, pop_first_scalar,
    valid_first_scalar, valid_leading_and_continuation_bytes_first_codepoint, valid_utf8,
};

verus! {

/// The lossy UTF-8 decoding of a byte sequence: a well-formed scalar
/// encoding decodes to its scalar, and a byte that begins no well-formed
/// encoding decodes to the replacement character on its own.
pub open spec fn decode_utf8_lossy(bytes: Seq<u8>) -> Seq<char>
    decreases bytes.len(),
{
    if bytes.len() == 0 {
        seq![]
    } else if valid_first_scalar(bytes) {
        seq![decode_first_scalar(bytes) as char] + decode_utf8_lossy(pop_first_scalar(bytes))
    } else {
        seq![replacement_char()] + decode_utf8_lossy(bytes.drop_first())
    }
}

/// On valid UTF-8 the lossy decoding is the exact one.
pub proof fn lemma_decode_utf8_lossy_exact(bytes: Seq<u8>)
    requires
        valid_utf8(bytes),
    ensures
        decode_utf8_lossy(bytes) == decode_utf8(bytes),
    decreases bytes.len(),
{
    if bytes.len() != 0 {
        assert(pop_first_scalar(bytes).len() < bytes.len());
        lemma_decode_utf8_lossy_exact(pop_first_scalar(bytes));
    }
}

proof fn lemma_width_1_bits(b: u8)
    by (bit_vector)
    requires
        b <= 0x7f,
    ensures
        (b & 0x7f) as u32 == b as u32,
{
}

proof fn lemma_width_2_bound(b0: u8, b1: u8)
    by (bit_vector)
    ensures
        (((b0 & 0x1f) as u32) << 6) | ((b1 & 0x3f) as u32) <= 0x7ff,
{
}

proof fn lemma_width_3_bound(b0: u8, b1: u8, b2: u8)
    by (bit_vector)
    ensures
        (((b0 & 0x0f) as u32) << 12) | (((b1 & 0x3f) as u32) << 6) | ((b2 & 0x3f) as u32)
            <= 0xffff,
{
}

/// Reads the scalar encoding that starts at position `i`, if a well-formed
/// one starts there: its scalar value and its length in bytes.
fn decode_first_at(bytes: &Vec<u8>, i: usize) -> (r: Option<(u32, usize)>)
    requires
        i < bytes@.len(),
    ensures
        match r {
            Some(p) => {
                &&& valid_first_scalar(bytes@.skip(i as int))
                &&& p.0 == decode_first_scalar(bytes@.skip(i as int))
                &&& p.1 == length_of_first_scalar(bytes@.skip(i as int))
                &&& 1 <= p.1 <= 4
                &&& i + p.1 <= bytes@.len()
                &&& is_scalar(p.0)
            },
            None => !valid_first_scalar(bytes@.skip(i as int)),
        },
{
    let ghost tail = bytes@.skip(i as int);
    let n = bytes.len();
    proof {
        assert(tail.len() == n - i);
        assert(tail[0] == bytes@[i as int]);
    }
    let b0 = bytes[i];
    if b0 <= 0x7f {
        proof {
            lemma_width_1_bits(b0);
            assert(decode_first_codepoint(tail) == b0 as u32);
            assert(length_of_first_codepoint(tail) == 1);
        }
        Some(((b0 & 0x7f) as u32, 1))
    } else if 0xc0 <= b0 && b0 <= 0xdf {
        if n - i > 1 && 0x80 <= bytes[i + 1] && bytes[i + 1] <= 0xbf {
            let b1 = bytes[i + 1];
            let cp: u32 = (((b0 & 0x1f) as u32) << 6) | ((b1 & 0x3f) as u32);
            proof {
                lemma_width_2_bound(b0, b1);
                assert(tail[1] == bytes@[i as int + 1]);
                assert(decode_first_codepoint(tail) == cp);
                assert(length_of_first_codepoint(tail) == 2);
            }
            if cp >= 0x80 {
                Some((cp, 2))
            } else {
                // An overlong two-byte encoding of a one-byte value.
                None
            }
        } else {
            None
        }
    } else if 0xe0 <= b0 && b0 <= 0xef {
        if n - i > 2 && 0x80 <= bytes[i + 1] && bytes[i + 1] <= 0xbf && 0x80 <= bytes[i + 2]
            && bytes[i + 2] <= 0xbf {
            let b1 = bytes[i + 1];
            let b2 = bytes[i + 2];
            let cp: u32 = (((b0 & 0x0f) as u32) << 12) | (((b1 & 0x3f) as u32) << 6) | ((b2
                & 0x3f) as u32);
            proof {
                lemma_width_3_bound(b0, b1, b2);
                assert(tail[1] == bytes@[i as int + 1]);
                assert(tail[2] == bytes@[i as int + 2]);
                assert(decode_first_codepoint(tail) == cp);
                assert(length_of_first_codepoint(tail) == 3);
            }
            if cp >= 0x800 && !(0xd800 <= cp && cp <= 0xdfff) {
                Some((cp, 3))
            } else {
                // Overlong, or an encoded surrogate.
                None
            }
        } else {
            None
        }
    } else if 0xf0 <= b0 && b0 <= 0xf7 {
        if n - i > 3 && 0x80 <= bytes[i + 1] && bytes[i + 1] <= 0xbf && 0x80 <= bytes[i + 2]
            && bytes[i + 2] <= 0xbf && 0x80 <= bytes[i + 3] && bytes[i + 3] <= 0xbf {
            let b1 = bytes[i + 1];
            let b2 = bytes[i + 2];
            let b3 = bytes[i + 3];
            let cp: u32 = (((b0 & 0x07) as u32) << 18) | (((b1 & 0x3f) as u32) << 12) | (((b2
                & 0x3f) as u32) << 6) | ((b3 & 0x3f) as u32);
            proof {
                assert(tail[1] == bytes@[i as int + 1]);
                assert(tail[2] == bytes@[i as int + 2]);
                assert(tail[3] == bytes@[i as int + 3]);
                assert(decode_first_codepoint(tail) == cp);
                assert(length_of_first_codepoint(tail) == 4);
            }
            if 0x10000 <= cp && cp <= 0x10ffff {
                Some((cp, 4))
            } else {
                // Overlong, or past the last Unicode scalar.
                None
            }
        } else {
            None
        }
    } else {
        // A continuation byte in leading position, or a byte no encoding
        // uses at all.
        proof {
            assert(!valid_leading_and_continuation_bytes_first_codepoint(tail));
        }
        None
    }
}

/// Decodes bytes to native text, replacing every byte that starts no
/// well-formed scalar encoding rather than rejecting the input.
pub fn decode_utf8_lossy_bytes(bytes: &Vec<u8>) -> (r: String)
    ensures
        r@ == decode_utf8_lossy(bytes@),
{
    let n = bytes.len();
    let mut out = String::new();
    let mut i: usize = 0;
    proof {
        assert(bytes@.skip(0) =~= bytes@);
        assert(Seq::<char>::empty() + decode_utf8_lossy(bytes@) =~= decode_utf8_lossy(bytes@));
    }
    while i < n
        invariant
            i <= n,
            n == bytes@.len(),
            decode_utf8_lossy(bytes@) == out@ + decode_utf8_lossy(bytes@.skip(i as int)),
        decreases n - i,
    {
        let ghost tail = bytes@.skip(i as int);
        proof {
            assert(tail.len() == n - i);
        }
        match decode_first_at(bytes, i) {
            Some((cp, k)) => {
                let c = char_from_u32(cp).unwrap();
                string_push(&mut out, c);
                proof {
                    char_u32_cast(c, cp);
                    assert(pop_first_scalar(tail) =~= bytes@.skip(i as int + k as int));
                    assert(decode_utf8_lossy(tail) == seq![c] + decode_utf8_lossy(
                        bytes@.skip(i as int + k as int),
                    ));
                    assert(out@ + decode_utf8_lossy(bytes@.skip(i as int + k as int))
                        =~= decode_utf8_lossy(bytes@));
                }
                i = i + k;
            },
            None => {
                string_push(&mut out, '\u{fffd}');
                proof {
                    assert(tail.drop_first() =~= bytes@.skip(i as int + 1));
                    assert(decode_utf8_lossy(tail) == seq![replacement_char()]
                        + decode_utf8_lossy(bytes@.skip(i as int + 1)));
                    assert(out@ + decode_utf8_lossy(bytes@.skip(i as int + 1))
                        =~= decode_utf8_lossy(bytes@));
                }
                i = i + 1;
            },
        }
    }
    proof {
        assert(bytes@.skip(n as int) =~= Seq::<u8>::empty());
        assert(out@ =~= decode_utf8_lossy(bytes@));
    }
    out
}

} // verus!
