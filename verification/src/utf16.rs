use vstd::prelude::*;

use crate::text::{char_from_u32, is_scalar};

verus! {

/// The UTF-16 code units of one character.
pub open spec fn char_units(c: char) -> Seq<u16> {
    let v = c as u32;
    if v < 0x10000 {
        seq![v as u16]
    } else {
        seq![(0xD800 + (v - 0x10000) / 0x400) as u16, (0xDC00 + (v - 0x10000) % 0x400) as u16]
    }
}

/// The UTF-16 code units of a character sequence.
pub open spec fn utf16_units(cs: Seq<char>) -> Seq<u16>
    decreases cs.len(),
{
    if cs.len() == 0 {
        Seq::empty()
    } else {
        char_units(cs[0]) + utf16_units(cs.drop_first())
    }
}

/// Decodes UTF-16 code units into characters; `None` on an unpaired surrogate.
pub open spec fn utf16_decode(us: Seq<u16>) -> Option<Seq<char>>
    decreases us.len(),
{
    if us.len() == 0 {
        Some(Seq::empty())
    } else {
        let u = us[0];
        if u < 0xD800 || u > 0xDFFF {
            match utf16_decode(us.drop_first()) {
                Some(rest) => Some(seq![(u as u32) as char] + rest),
                None => None,
            }
        } else if u <= 0xDBFF && us.len() >= 2 && 0xDC00 <= us[1] && us[1] <= 0xDFFF {
            let v = (0x10000 + (u - 0xD800) * 0x400 + (us[1] - 0xDC00)) as u32;
            match utf16_decode(us.skip(2)) {
                Some(rest) => Some(seq![v as char] + rest),
                None => None,
            }
        } else {
            None
        }
    }
}

/// Little-endian bytes of a sequence of code units.
pub open spec fn units_le(us: Seq<u16>) -> Seq<u8> {
    Seq::new(
        2 * us.len(),
        |j: int| if j % 2 == 0 { (us[j / 2] % 256) as u8 } else { (us[j / 2] / 256) as u8 },
    )
}

/// The code units whose little-endian bytes are `b` (a trailing odd byte is dropped).
pub open spec fn units_of(b: Seq<u8>) -> Seq<u16> {
    Seq::new(b.len() / 2, |i: int| (b[2 * i] + 256 * b[2 * i + 1]) as u16)
}

pub proof fn lemma_utf16_units_concat(a: Seq<char>, b: Seq<char>)
    ensures
        utf16_units(a + b) == utf16_units(a) + utf16_units(b),
    decreases a.len(),
{
    if a.len() == 0 {
        assert(a + b =~= b);
    } else {
        assert((a + b).drop_first() =~= a.drop_first() + b);
        lemma_utf16_units_concat(a.drop_first(), b);
    }
}

/// A character takes one or two code units.
pub proof fn lemma_utf16_len_bound(cs: Seq<char>)
    ensures
        cs.len() <= utf16_units(cs).len() <= 2 * cs.len(),
    decreases cs.len(),
{
    if cs.len() > 0 {
        lemma_utf16_len_bound(cs.drop_first());
    }
}

proof fn lemma_utf16_units_push(a: Seq<char>, c: char)
    ensures
        utf16_units(a.push(c)) == utf16_units(a) + char_units(c),
{
    lemma_utf16_units_concat(a, seq![c]);
    assert(a.push(c) =~= a + seq![c]);
    assert(seq![c].drop_first() =~= Seq::<char>::empty());
    assert(seq![c][0] == c);
    assert(utf16_units(seq![c].drop_first()) =~= Seq::<u16>::empty());
    assert(utf16_units(seq![c]) =~= char_units(c));
}

proof fn lemma_char_units_decode(c: char, rest: Seq<u16>)
    ensures
        utf16_decode(char_units(c) + rest) == match utf16_decode(rest) {
            Some(r) => Some(seq![c] + r),
            None => None::<Seq<char>>,
        },
{
    let v = c as u32;
    let us = char_units(c) + rest;
    if v < 0x10000 {
        assert(us.drop_first() =~= rest);
        assert(((v as u16) as u32) as char == c);
    } else {
        let q = (v - 0x10000) / 0x400;
        let r = (v - 0x10000) % 0x400;
        assert(q < 0x400) by (nonlinear_arith)
            requires v <= 0x10FFFF, v >= 0x10000, q == (v - 0x10000) / 0x400;
        assert(0x10000 + q * 0x400 + r == v) by (nonlinear_arith)
            requires v >= 0x10000, q == (v - 0x10000) / 0x400, r == (v - 0x10000) % 0x400;
        assert(us.skip(2) =~= rest);
        assert((v as char) == c);
    }
}

/// UTF-16 decoding gives back the characters that were encoded.
pub proof fn lemma_utf16_roundtrip(cs: Seq<char>)
    ensures
        utf16_decode(utf16_units(cs)) == Some(cs),
    decreases cs.len(),
{
    if cs.len() == 0 {
    } else {
        lemma_utf16_roundtrip(cs.drop_first());
        lemma_char_units_decode(cs[0], utf16_units(cs.drop_first()));
        assert(seq![cs[0]] + cs.drop_first() =~= cs);
    }
}

/// Code units read back from their little-endian bytes.
pub proof fn lemma_units_le_roundtrip(us: Seq<u16>)
    ensures
        units_le(us).len() == 2 * us.len(),
        units_of(units_le(us)) == us,
{
    assert(units_of(units_le(us)) =~= us);
}

/// The UTF-16 code units of `cs`.
pub fn encode_utf16(cs: &[char]) -> (us: Vec<u16>)
    ensures
        us@ == utf16_units(cs@),
{
    let mut us: Vec<u16> = Vec::new();
    let n = cs.len();
    let mut i: usize = 0;
    assert(cs@.take(0) =~= Seq::<char>::empty());
    while i < n
        invariant
            n == cs@.len(),
            i <= n,
            us@ == utf16_units(cs@.take(i as int)),
        decreases n - i,
    {
        let c = cs[i];
        let v = c as u32;
        proof {
            lemma_utf16_units_push(cs@.take(i as int), c);
            assert(cs@.take(i as int).push(c) =~= cs@.take(i + 1));
        }
        if v < 0x10000 {
            us.push(v as u16);
        } else {
            us.push((0xD800 + (v - 0x10000) / 0x400) as u16);
            us.push((0xDC00 + (v - 0x10000) % 0x400) as u16);
        }
        i = i + 1;
        assert(us@ =~= utf16_units(cs@.take(i as int)));
    }
    assert(cs@.take(n as int) =~= cs@);
    us
}

spec fn prepend_chars(p: Seq<char>, o: Option<Seq<char>>) -> Option<Seq<char>> {
    match o {
        Some(r) => Some(p + r),
        None => None,
    }
}

/// Decodes UTF-16 code units; `None` exactly when `utf16_decode` says so.
pub fn decode_utf16(us: &[u16]) -> (res: Option<Vec<char>>)
    ensures
        match utf16_decode(us@) {
            Some(cs) => res matches Some(v) && v@ == cs,
            None => res is None,
        },
{
    let mut out: Vec<char> = Vec::new();
    let n = us.len();
    let mut i: usize = 0;
    assert(us@.skip(0) =~= us@);
    while i < n
        invariant
            n == us@.len(),
            i <= n,
            utf16_decode(us@) == prepend_chars(out@, utf16_decode(us@.skip(i as int))),
        decreases n - i,
    {
        let u = us[i];
        let ghost tail = us@.skip(i as int);
        if u < 0xD800 || u > 0xDFFF {
            let c = match char_from_u32(u as u32) {
                Some(c) => c,
                None => { return None; },
            };
            assert(tail.drop_first() =~= us@.skip(i + 1));
            proof {
                assert(c == (u as u32) as char);
            }
            let ghost old_out = out@;
            out.push(c);
            i = i + 1;
            proof {
                if let Some(r) = utf16_decode(us@.skip(i as int)) {
                    assert(old_out + (seq![c] + r) =~= out@ + r);
                }
            }
        } else if u <= 0xDBFF && i + 1 < n && 0xDC00 <= us[i + 1] && us[i + 1] <= 0xDFFF {
            let lo = us[i + 1];
            let v: u32 = 0x10000 + ((u - 0xD800) as u32) * 0x400 + ((lo - 0xDC00) as u32);
            let c = match char_from_u32(v) {
                Some(c) => c,
                None => { return None; },
            };
            assert(tail.skip(2) =~= us@.skip(i + 2));
            let ghost old_out = out@;
            out.push(c);
            i = i + 2;
            proof {
                assert(c == v as char);
                if let Some(r) = utf16_decode(us@.skip(i as int)) {
                    assert(old_out + (seq![c] + r) =~= out@ + r);
                }
            }
        } else {
            return None;
        }
    }
    assert(us@.skip(n as int) =~= Seq::<u16>::empty());
    assert(out@ + Seq::<char>::empty() =~= out@);
    Some(out)
}

} // verus!
