//! Conversions between Rust strings and the host's wide (UTF-16) strings.

use vstd::prelude::*;
use vstd::string::{StrSliceExecFns, StringExecFns};

verus! {

broadcast use vstd::utf8::char_is_scalar, vstd::utf8::char_u32_cast;

/// The UTF-16 code units of one character: the value itself inside the
/// basic multilingual plane, a surrogate pair beyond it.
pub open spec fn wide_units(c: char) -> Seq<u16> {
    let u = c as u32;
    if u < 0x10000 {
        seq![u as u16]
    } else {
        seq![
            (0xD800 + (u - 0x10000) / 0x400) as u16,
            (0xDC00 + (u - 0x10000) % 0x400) as u16,
        ]
    }
}

/// The UTF-16 encoding of a character sequence.
pub open spec fn wide_text(s: Seq<char>) -> Seq<u16>
    decreases s.len(),
{
    if s.len() == 0 {
        Seq::empty()
    } else {
        wide_units(s[0]) + wide_text(s.drop_first())
    }
}

/// The characters a well-formed UTF-16 sequence encodes; `None` when a
/// surrogate stands alone or pairs the wrong way.
pub open spec fn wide_decode(w: Seq<u16>) -> Option<Seq<char>>
    decreases w.len(),
{
    if w.len() == 0 {
        Some(Seq::empty())
    } else {
        let x = w[0] as u32;
        if 0xD800 <= x < 0xDC00 {
            if w.len() >= 2 && 0xDC00 <= w[1] < 0xE000 {
                let u = 0x10000 + (x - 0xD800) * 0x400 + (w[1] - 0xDC00);
                match wide_decode(w.skip(2)) {
                    Some(rest) => Some(seq![u as char] + rest),
                    None => None,
                }
            } else {
                None
            }
        } else if 0xDC00 <= x < 0xE000 {
            None
        } else {
            match wide_decode(w.skip(1)) {
                Some(rest) => Some(seq![x as char] + rest),
                None => None,
            }
        }
    }
}

/// The UTF-16 encoding of a concatenation is the concatenation of the
/// encodings.
proof fn lemma_wide_text_concat(a: Seq<char>, b: Seq<char>)
    ensures
        wide_text(a + b) == wide_text(a) + wide_text(b),
    decreases a.len(),
{
    if a.len() == 0 {
        assert(a + b =~= b);
        assert(wide_text(a) + wide_text(b) =~= wide_text(b));
    } else {
        lemma_wide_text_concat(a.drop_first(), b);
        assert((a + b).drop_first() =~= a.drop_first() + b);
        assert((a + b)[0] == a[0]);
        assert(wide_units(a[0]) + (wide_text(a.drop_first()) + wide_text(b)) =~= (wide_units(a[0])
            + wide_text(a.drop_first())) + wide_text(b));
    }
}

/// Encoding a string as UTF-16 and decoding it again gives the string
/// back: `wide_decode` inverts `wide_text` on every character sequence.
pub proof fn lemma_wide_round_trip(s: Seq<char>)
    ensures
        wide_decode(wide_text(s)) == Some(s),
    decreases s.len(),
{
    if s.len() == 0 {
        assert(wide_text(s) =~= Seq::<u16>::empty());
    } else {
        let c = s[0];
        let u = c as u32;
        vstd::utf8::char_is_scalar(c);
        let units = wide_units(c);
        let tail = wide_text(s.drop_first());
        let w = wide_text(s);
        assert(w == units + tail);
        lemma_wide_round_trip(s.drop_first());
        if u < 0x10000 {
            assert(w[0] == (u as u16));
            assert(w[0] as u32 == u);
            assert(!(0xD800 <= u < 0xE000));
            assert(w.skip(1) =~= tail);
            vstd::utf8::char_u32_cast(c, u);
            assert(seq![u as char] + s.drop_first() =~= s);
        } else {
            let q = (u - 0x10000) / 0x400;
            let rem = (u - 0x10000) % 0x400;
            assert(u <= 0x10FFFF);
            assert(q <= 0x3FF) by {
                assert(u - 0x10000 <= 0xFFFFF);
            }
            assert(w[0] == ((0xD800 + q) as u16));
            assert(w[1] == ((0xDC00 + rem) as u16));
            assert(w[0] as u32 == 0xD800 + q);
            assert(w[1] as u32 == 0xDC00 + rem);
            assert(0xD800 <= (w[0] as u32) && (w[0] as u32) < 0xDC00);
            assert(0xDC00 <= (w[1] as u32) && (w[1] as u32) < 0xE000);
            assert(w.skip(2) =~= tail);
            assert(q * 0x400 + rem == u - 0x10000) by {
                vstd::arithmetic::div_mod::lemma_fundamental_div_mod((u - 0x10000) as int, 0x400);
            }
            assert(0x10000 + ((w[0] as u32) - 0xD800) * 0x400 + ((w[1] as int) - 0xDC00) == u);
            vstd::utf8::char_u32_cast(c, u);
            assert(seq![u as char] + s.drop_first() =~= s);
        }
    }
}

/// Conversion to the host's wide-string form.
pub trait ToWide {
    /// The characters being encoded.
    spec fn wide_view(&self) -> Seq<char>;

    /// The UTF-16 code units, without a terminator.
    fn to_wide_sized(&self) -> (r: Vec<u16>)
        ensures
            r@ == wide_text(self.wide_view()),
    ;

    /// The UTF-16 code units with a trailing nul.
    fn to_wide(&self) -> (r: Vec<u16>)
        ensures
            r@ == wide_text(self.wide_view()).push(0),
    ;
}

impl ToWide for str {
    open spec fn wide_view(&self) -> Seq<char> {
        self@
    }

    fn to_wide_sized(&self) -> (r: Vec<u16>)
        ensures
            r@ == wide_text(self@),
    {
        let n = self.unicode_len();
        let mut out: Vec<u16> = Vec::new();
        let mut i: usize = 0;
        proof {
            assert(self@.take(0) =~= Seq::<char>::empty());
        }
        while i < n
            invariant
                n == self@.len(),
                i <= n,
                out@ == wide_text(self@.take(i as int)),
            decreases n - i,
        {
            let c = self.get_char(i);
            let u = c as u32;
            let ghost before = out@;
            if u < 0x10000 {
                out.push(u as u16);
            } else {
                out.push((0xD800 + (u - 0x10000) / 0x400) as u16);
                out.push((0xDC00 + (u - 0x10000) % 0x400) as u16);
            }
            proof {
                assert(out@ =~= before + wide_units(c));
                assert(self@.take(i + 1) =~= self@.take(i as int) + seq![self@[i as int]]);
                lemma_wide_text_concat(self@.take(i as int), seq![self@[i as int]]);
                assert(seq![self@[i as int]].drop_first() =~= Seq::<char>::empty());
                assert(seq![self@[i as int]][0] == self@[i as int]);
                assert(wide_text(Seq::<char>::empty()) =~= Seq::<u16>::empty());
                assert(wide_units(self@[i as int]) + Seq::<u16>::empty() =~= wide_units(
                    self@[i as int],
                ));
                assert(wide_text(seq![self@[i as int]]) =~= wide_units(self@[i as int]));
            }
            i = i + 1;
        }
        proof {
            assert(self@.take(n as int) =~= self@);
        }
        out
    }

    fn to_wide(&self) -> (r: Vec<u16>)
        ensures
            r@ == wide_text(self@).push(0),
    {
        let mut out = self.to_wide_sized();
        out.push(0);
        out
    }
}

/// Conversion from the host's wide-string form.
pub trait FromWide {
    /// The code units being decoded.
    spec fn units_view(&self) -> Seq<u16>;

    /// The string the units encode, or `None` when they are not
    /// well-formed UTF-16.
    fn from_wide(&self) -> (r: Option<String>)
        ensures
            match r {
                Some(s) => wide_decode(self.units_view()) == Some(s@),
                None => wide_decode(self.units_view()) is None,
            },
    ;
}

impl FromWide for [u16] {
    open spec fn units_view(&self) -> Seq<u16> {
        self@
    }

    fn from_wide(&self) -> (r: Option<String>)
        ensures
            match r {
                Some(s) => wide_decode(self@) == Some(s@),
                None => wide_decode(self@) is None,
            },
    {
        let n = self.len();
        let mut out = String::new();
        let mut i: usize = 0;
        proof {
            assert(self@.skip(0) =~= self@);
            if let Some(rest) = wide_decode(self@) {
                assert(Seq::<char>::empty() + rest =~= rest);
            }
        }
        while i < n
            invariant
                n == self@.len(),
                i <= n,
                wide_decode(self@) == (match wide_decode(self@.skip(i as int)) {
                    Some(rest) => Some(out@ + rest),
                    None => None,
                }),
            decreases n - i,
        {
            let ghost w = self@.skip(i as int);
            let ghost old_out = out@;
            proof {
                assert(w[0] == self@[i as int]);
            }
            let x = self[i] as u32;
            if 0xD800 <= x && x < 0xDC00 {
                if i + 1 < n {
                    let y = self[i + 1] as u32;
                    proof {
                        assert(w[1] == self@[i + 1]);
                    }
                    if 0xDC00 <= y && y < 0xE000 {
                        let u = 0x10000 + (x - 0xD800) * 0x400 + (y - 0xDC00);
                        let c = char::from_u32(u).unwrap();
                        let piece = crate::protocol::char_to_string(c);
                        out.append(piece.as_str());
                        proof {
                            assert(w.skip(2) =~= self@.skip(i + 2));
                            vstd::utf8::char_u32_cast(c, u);
                            assert(seq![u as char] =~= seq![c]);
                            if let Some(rest) = wide_decode(self@.skip(i + 2)) {
                                assert(old_out + (seq![c] + rest) =~= (old_out + seq![c]) + rest);
                            }
                        }
                        i = i + 2;
                    } else {
                        return None;
                    }
                } else {
                    return None;
                }
            } else if 0xDC00 <= x && x < 0xE000 {
                return None;
            } else {
                let c = char::from_u32(x).unwrap();
                let piece = crate::protocol::char_to_string(c);
                out.append(piece.as_str());
                proof {
                    assert(w.skip(1) =~= self@.skip(i + 1));
                    vstd::utf8::char_u32_cast(c, x);
                    assert(seq![x as char] =~= seq![c]);
                    if let Some(rest) = wide_decode(self@.skip(i + 1)) {
                        assert(old_out + (seq![c] + rest) =~= (old_out + seq![c]) + rest);
                    }
                }
                i = i + 1;
            }
        }
        proof {
            assert(self@.skip(n as int) =~= Seq::<u16>::empty());
            assert(out@ + Seq::<char>::empty() =~= out@);
        }
        Some(out)
    }
}

} // verus!
