//! Offset translation at the boundary between the line cache and the text
//! layout host: the host measures hits in UTF-16 code units, the core
//! addresses text in UTF-8 code units.

use vstd::prelude::*;
use vstd::string::{StrSliceExecFns, StringSliceAdditionalSpecFns};
use vstd::utf8::{encode_scalar, encode_utf8};

verus! {

broadcast use vstd::utf8::char_is_scalar;

/// How many UTF-16 code units the character takes: two for the characters
/// beyond the basic multilingual plane, one for all others.
pub open spec fn utf16_units(c: char) -> int {
    if (c as u32) < 0x10000 {
        1
    } else {
        2
    }
}

/// The UTF-16 length of a character sequence.
pub open spec fn utf16_len(s: Seq<char>) -> int
    decreases s.len(),
{
    if s.len() == 0 {
        0
    } else {
        utf16_units(s[0]) + utf16_len(s.drop_first())
    }
}

/// The UTF-8 offset corresponding to a UTF-16 offset: the byte index of
/// the first character at which the running UTF-16 count passes `off`, or
/// the full byte length when the count never does. An offset inside a
/// two-unit character resolves to that character's first byte.
pub open spec fn utf16_to_utf8_offset(s: Seq<char>, off: int) -> int
    decreases s.len(),
{
    if s.len() == 0 {
        0
    } else if utf16_units(s[0]) > off {
        0
    } else {
        encode_scalar(s[0] as u32).len() + utf16_to_utf8_offset(
            s.drop_first(),
            off - utf16_units(s[0]),
        )
    }
}

/// The UTF-8 encoding of a concatenation is the concatenation of the
/// encodings.
proof fn lemma_encode_utf8_concat(a: Seq<char>, b: Seq<char>)
    ensures
        encode_utf8(a + b) == encode_utf8(a) + encode_utf8(b),
    decreases a.len(),
{
    if a.len() == 0 {
        assert(a + b =~= b);
        assert(encode_utf8(a) + encode_utf8(b) =~= encode_utf8(b));
    } else {
        lemma_encode_utf8_concat(a.drop_first(), b);
        assert((a + b).drop_first() =~= a.drop_first() + b);
        assert((a + b)[0] == a[0]);
        assert(encode_scalar(a[0] as u32) + (encode_utf8(a.drop_first()) + encode_utf8(b)) =~= (
        encode_scalar(a[0] as u32) + encode_utf8(a.drop_first())) + encode_utf8(b));
    }
}

/// The number of bytes in the character's UTF-8 encoding.
fn utf8_units_of(c: char) -> (n: usize)
    ensures
        n == encode_scalar(c as u32).len(),
        1 <= n <= 4,
{
    let u = c as u32;
    if u < 0x80 {
        1
    } else if u < 0x800 {
        2
    } else if u < 0x10000 {
        3
    } else {
        4
    }
}

/// Convert a UTF-16 code unit offset into `s` to the corresponding UTF-8
/// code unit offset.
pub fn conv_utf16_to_utf8_offset(s: &str, utf16_offset: usize) -> (r: usize)
    ensures
        r == utf16_to_utf8_offset(s@, utf16_offset as int),
{
    let total_bytes = s.as_bytes().len();
    let n = s.unicode_len();
    let off = utf16_offset;
    let mut i: usize = 0;
    let mut c16: usize = 0;
    let mut c8: usize = 0;
    proof {
        assert(s@.skip(0) =~= s@);
        assert(s@.take(0) =~= Seq::<char>::empty());
        assert(encode_utf8(s@.take(0)) =~= Seq::<u8>::empty());
    }
    while i < n
        invariant
            n == s@.len(),
            off == utf16_offset,
            total_bytes == encode_utf8(s@).len(),
            i <= n,
            c16 <= off,
            c8 == encode_utf8(s@.take(i as int)).len(),
            c8 <= total_bytes,
            utf16_to_utf8_offset(s@, off as int) == c8 + utf16_to_utf8_offset(
                s@.skip(i as int),
                off - c16,
            ),
        decreases n - i,
    {
        let c = s.get_char(i);
        proof {
            assert(s@.skip(i as int)[0] == s@[i as int]);
            assert(s@.skip(i as int).drop_first() =~= s@.skip(i + 1));
            assert(s@.take(i + 1) =~= s@.take(i as int) + seq![s@[i as int]]);
            lemma_encode_utf8_concat(s@.take(i as int), seq![s@[i as int]]);
            assert(seq![s@[i as int]].drop_first() =~= Seq::<char>::empty());
            assert(seq![s@[i as int]][0] == s@[i as int]);
            assert(encode_utf8(Seq::<char>::empty()) =~= Seq::<u8>::empty());
            assert(encode_utf8(seq![s@[i as int]]) =~= encode_scalar(s@[i as int] as u32));
            assert(s@ =~= s@.take(i + 1) + s@.skip(i + 1));
            lemma_encode_utf8_concat(s@.take(i + 1), s@.skip(i + 1));
        }
        let units: usize = if (c as u32) < 0x10000 {
            1
        } else {
            2
        };
        if units > off - c16 {
            proof {
                assert(utf16_units(s@.skip(i as int)[0]) > off - c16);
                assert(utf16_to_utf8_offset(s@.skip(i as int), off - c16) == 0);
            }
            return c8;
        }
        let bytes = utf8_units_of(c);
        c16 = c16 + units;
        c8 = c8 + bytes;
        i = i + 1;
    }
    proof {
        assert(s@.skip(n as int) =~= Seq::<char>::empty());
        assert(s@.take(n as int) =~= s@);
    }
    c8
}

} // verus!
