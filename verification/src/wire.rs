use vstd::prelude::*;

use crate::error::{decode_error, EdcbError};
use crate::text::{chars_of, push_decimal, push_signed_decimal, push_str, signed_decimal, string_from_chars};
use crate::utf16::{decode_utf16, encode_utf16, units_le, units_of, utf16_decode, utf16_units};

verus! {

/// A decode error whose message is `head` followed by the number `n`.
pub fn decode_error_with(head: &str, n: i64) -> (e: EdcbError)
    ensures
        e matches EdcbError::Decode(m) && m@ == head@ + signed_decimal(n as int),
{
    let mut out: Vec<char> = Vec::new();
    push_str(&mut out, head);
    push_signed_decimal(&mut out, n);
    EdcbError::Decode(string_from_chars(out.as_slice()))
}


/// Little-endian bytes of a `u16`.
pub open spec fn le16(v: u16) -> Seq<u8> {
    seq![(v % 256) as u8, (v / 256) as u8]
}

/// Little-endian bytes of a `u32`.
pub open spec fn le32(v: u32) -> Seq<u8> {
    seq![(v % 256) as u8, ((v / 256) % 256) as u8, ((v / 65536) % 256) as u8, (v / 16777216) as u8]
}

/// Little-endian bytes of a `u64`.
pub open spec fn le64(v: u64) -> Seq<u8> {
    le32((v % 4294967296) as u32) + le32((v / 4294967296) as u32)
}

/// Two's complement reading of an `i32` as a `u32`.
pub open spec fn u32_of_i32(v: i32) -> u32 {
    if v >= 0 { v as u32 } else { (v + 4294967296) as u32 }
}

/// Two's complement reading of a `u32` as an `i32`.
pub open spec fn i32_of_u32(u: u32) -> i32 {
    if u < 0x8000_0000 { u as i32 } else { (u - 4294967296) as i32 }
}

/// Two's complement reading of an `i64` as a `u64`.
pub open spec fn u64_of_i64(v: i64) -> u64 {
    if v >= 0 { v as u64 } else { (v + 18446744073709551616) as u64 }
}

/// Two's complement reading of a `u64` as an `i64`.
pub open spec fn i64_of_u64(u: u64) -> i64 {
    if u < 0x8000_0000_0000_0000 { u as i64 } else { (u - 18446744073709551616) as i64 }
}

/// Little-endian bytes of an `i32`.
pub open spec fn lei32(v: i32) -> Seq<u8> {
    le32(u32_of_i32(v))
}

/// Little-endian bytes of an `i64`.
pub open spec fn lei64(v: i64) -> Seq<u8> {
    le64(u64_of_i64(v))
}

/// The `u16` whose little-endian bytes start `s`.
pub open spec fn get16(s: Seq<u8>) -> u16 {
    (s[0] + 256 * s[1]) as u16
}

/// The `u32` whose little-endian bytes start `s`.
pub open spec fn get32(s: Seq<u8>) -> u32 {
    (s[0] + 256 * s[1] + 65536 * s[2] + 16777216 * s[3]) as u32
}

/// The `u64` whose little-endian bytes start `s`.
pub open spec fn get64(s: Seq<u8>) -> u64 {
    (get32(s) + 4294967296 * get32(s.skip(4))) as u64
}

/// Reads one byte from the front of `s`.
pub open spec fn p_u8(s: Seq<u8>) -> Option<(u8, Seq<u8>)> {
    if s.len() >= 1 { Some((s[0], s.skip(1))) } else { None }
}

/// Reads a little-endian `u16` from the front of `s`.
pub open spec fn p_u16(s: Seq<u8>) -> Option<(u16, Seq<u8>)> {
    if s.len() >= 2 { Some((get16(s), s.skip(2))) } else { None }
}

/// Reads a little-endian `u32` from the front of `s`.
pub open spec fn p_u32(s: Seq<u8>) -> Option<(u32, Seq<u8>)> {
    if s.len() >= 4 { Some((get32(s), s.skip(4))) } else { None }
}

/// Reads a little-endian `i32` from the front of `s`.
pub open spec fn p_i32(s: Seq<u8>) -> Option<(i32, Seq<u8>)> {
    if s.len() >= 4 { Some((i32_of_u32(get32(s)), s.skip(4))) } else { None }
}

/// Reads a little-endian `i64` from the front of `s`.
pub open spec fn p_i64(s: Seq<u8>) -> Option<(i64, Seq<u8>)> {
    if s.len() >= 8 { Some((i64_of_u64(get64(s)), s.skip(8))) } else { None }
}

pub proof fn lemma_le32(v: u32)
    ensures
        le32(v).len() == 4,
        get32(le32(v)) == v,
{
}

/// A growing byte buffer in EDCB's little-endian wire format.
pub struct Writer {
    buf: Vec<u8>,
}

impl View for Writer {
    type V = Seq<u8>;

    closed spec fn view(&self) -> Seq<u8> {
        self.buf@
    }
}

impl Writer {
    pub fn new() -> (w: Writer)
        ensures
            w@ == Seq::<u8>::empty(),
    {
        Writer { buf: Vec::new() }
    }

    pub fn as_slice(&self) -> (s: &[u8])
        ensures
            s@ == self@,
    {
        self.buf.as_slice()
    }

    pub fn into_inner(self) -> (v: Vec<u8>)
        ensures
            v@ == self@,
    {
        self.buf
    }

    pub fn write_u8(&mut self, value: u8)
        ensures
            final(self)@ == old(self)@.push(value),
    {
        self.buf.push(value);
    }

    pub fn write_u16(&mut self, value: u16)
        ensures
            final(self)@ == old(self)@ + le16(value),
    {
        self.buf.push((value % 256) as u8);
        self.buf.push((value / 256) as u8);
        assert(self@ =~= old(self)@ + le16(value));
    }

    pub fn write_u32(&mut self, value: u32)
        ensures
            final(self)@ == old(self)@ + le32(value),
    {
        self.buf.push((value % 256) as u8);
        self.buf.push(((value / 256) % 256) as u8);
        self.buf.push(((value / 65536) % 256) as u8);
        self.buf.push((value / 16777216) as u8);
        assert(self@ =~= old(self)@ + le32(value));
    }

    pub fn write_i32(&mut self, value: i32)
        ensures
            final(self)@ == old(self)@ + lei32(value),
    {
        let wide: i64 = if value >= 0 { value as i64 } else { value as i64 + 4294967296 };
        self.write_u32(wide as u32);
    }

    pub fn write_i64(&mut self, value: i64)
        ensures
            final(self)@ == old(self)@ + lei64(value),
    {
        let wide: i128 = if value >= 0 { value as i128 } else { value as i128 + 18446744073709551616 };
        let u = wide as u64;
        self.write_u32((u % 4294967296) as u32);
        self.write_u32((u / 4294967296) as u32);
        assert(self@ =~= old(self)@ + lei64(value));
    }
}

/// A cursor over a byte slice in EDCB's wire format.
pub struct Reader<'a> {
    buf: &'a [u8],
    pos: usize,
}

impl<'a> View for Reader<'a> {
    type V = Seq<u8>;

    /// The bytes not read yet.
    closed spec fn view(&self) -> Seq<u8> {
        self.buf@.subrange(self.pos as int, self.buf@.len() as int)
    }
}

impl<'a> Reader<'a> {
    #[verifier::type_invariant]
    spec fn inv(&self) -> bool {
        self.pos <= self.buf@.len()
    }

    pub fn new(buf: &'a [u8]) -> (r: Reader<'a>)
        ensures
            r@ == buf@,
    {
        let r = Reader { buf, pos: 0 };
        assert(r@ =~= buf@);
        r
    }

    pub fn is_finished(&self) -> (b: bool)
        ensures
            b == (self@.len() == 0),
    {
        proof { use_type_invariant(self); }
        self.pos == self.buf.len()
    }

    fn remaining(&self) -> (n: usize)
        ensures
            n == self@.len(),
    {
        proof { use_type_invariant(self); }
        self.buf.len() - self.pos
    }

    /// Reads the next `len` bytes; where fewer remain, fails and reads nothing.
    pub fn read_exact(&mut self, len: usize) -> (res: Result<&'a [u8], EdcbError>)
        ensures
            old(self)@.len() < len ==> (res matches Err(EdcbError::Decode(_))) && final(self)@ == old(self)@,
            old(self)@.len() >= len ==> (res matches Ok(b) && b@ == old(self)@.take(len as int)
                && final(self)@ == old(self)@.skip(len as int)),
    {
        proof { use_type_invariant(&*self); }
        let remaining = self.remaining();
        if remaining < len {
            let mut out: Vec<char> = Vec::new();
            push_str(&mut out, "buffer too short: need ");
            push_decimal(&mut out, len as u64);
            push_str(&mut out, " bytes, remaining ");
            push_decimal(&mut out, remaining as u64);
            return Err(EdcbError::Decode(string_from_chars(out.as_slice())));
        }
        let start = self.pos;
        let n = self.buf.len();
        assert(start + len <= n);
        self.pos = start + len;
        let b = &self.buf[start..start + len];
        assert(b@ =~= old(self)@.take(len as int));
        assert(self@ =~= old(self)@.skip(len as int));
        Ok(b)
    }

    pub fn read_u8(&mut self) -> (res: Result<u8, EdcbError>)
        ensures
            p_u8(old(self)@) matches Some((v, rest)) ==> res == Ok::<u8, EdcbError>(v) && final(self)@ == rest,
            p_u8(old(self)@) is None ==> res matches Err(EdcbError::Decode(_)),
    {
        let b = self.read_exact(1)?;
        Ok(b[0])
    }

    pub fn read_u16(&mut self) -> (res: Result<u16, EdcbError>)
        ensures
            p_u16(old(self)@) matches Some((v, rest)) ==> res == Ok::<u16, EdcbError>(v) && final(self)@ == rest,
            p_u16(old(self)@) is None ==> res matches Err(EdcbError::Decode(_)),
    {
        let b = self.read_exact(2)?;
        Ok((b[0] as u16) + 256 * (b[1] as u16))
    }

    pub fn read_u32(&mut self) -> (res: Result<u32, EdcbError>)
        ensures
            p_u32(old(self)@) matches Some((v, rest)) ==> res == Ok::<u32, EdcbError>(v) && final(self)@ == rest,
            p_u32(old(self)@) is None ==> res matches Err(EdcbError::Decode(_)),
    {
        let b = self.read_exact(4)?;
        Ok((b[0] as u32) + 256 * (b[1] as u32) + 65536 * (b[2] as u32) + 16777216 * (b[3] as u32))
    }

    pub fn read_i32(&mut self) -> (res: Result<i32, EdcbError>)
        ensures
            p_i32(old(self)@) matches Some((v, rest)) ==> res == Ok::<i32, EdcbError>(v) && final(self)@ == rest,
            p_i32(old(self)@) is None ==> res matches Err(EdcbError::Decode(_)),
    {
        let u = self.read_u32()?;
        if u < 0x8000_0000 {
            Ok(u as i32)
        } else {
            Ok((u as i64 - 4294967296) as i32)
        }
    }

    pub fn read_i64(&mut self) -> (res: Result<i64, EdcbError>)
        ensures
            p_i64(old(self)@) matches Some((v, rest)) ==> res == Ok::<i64, EdcbError>(v) && final(self)@ == rest,
            p_i64(old(self)@) is None ==> res matches Err(EdcbError::Decode(_)),
    {
        let ghost s = self@;
        let b = self.read_exact(8)?;
        let lo = (b[0] as u64) + 256 * (b[1] as u64) + 65536 * (b[2] as u64) + 16777216 * (b[3] as u64);
        let hi = (b[4] as u64) + 256 * (b[5] as u64) + 65536 * (b[6] as u64) + 16777216 * (b[7] as u64);
        assert(s.skip(4)[0] == b@[4] && s.skip(4)[1] == b@[5] && s.skip(4)[2] == b@[6] && s.skip(4)[3] == b@[7]);
        let u = lo + 4294967296 * hi;
        if u < 0x8000_0000_0000_0000 {
            Ok(u as i64)
        } else {
            Ok((u as i128 - 18446744073709551616) as i64)
        }
    }
}


/// Wire form of a string: an `i32` size that counts itself, the UTF-16LE body and a
/// two-byte terminator, then the UTF-16LE code units and a zero `u16`.
#[verifier::opaque]
pub open spec fn s_string(cs: Seq<char>) -> Seq<u8> {
    lei32((6 + 2 * utf16_units(cs).len()) as i32) + units_le(utf16_units(cs)) + le16(0)
}

/// Reads a size-prefixed UTF-16LE string from the front of `s`.
#[verifier::opaque]
pub open spec fn p_string(s: Seq<u8>) -> Option<(Seq<char>, Seq<u8>)> {
    match p_i32(s) {
        None => None,
        Some((size, r)) => if size < 6 || r.len() < size - 4 || (size - 6) % 2 != 0 {
            None
        } else {
            match utf16_decode(units_of(r.take(size - 6))) {
                None => None,
                Some(cs) => Some((cs, r.skip(size - 4))),
            }
        },
    }
}

/// Wire form of a struct: an `i32` size that counts itself and the body, then the body.
pub open spec fn s_frame(body: Seq<u8>) -> Seq<u8> {
    lei32((body.len() + 4) as i32) + body
}

/// Reads a struct frame: its body and what follows the frame.
pub open spec fn p_frame(s: Seq<u8>) -> Option<(Seq<u8>, Seq<u8>)> {
    match p_i32(s) {
        None => None,
        Some((size, r)) => if size < 4 || r.len() < size - 4 {
            None
        } else {
            Some((r.take(size - 4), r.skip(size - 4)))
        },
    }
}

/// Wire form of a vector of `count` items whose encodings make up `body`.
pub open spec fn s_vector(count: int, body: Seq<u8>) -> Seq<u8> {
    lei32((body.len() + 8) as i32) + lei32(count as i32) + body
}

/// Reads a vector header: the item count, the bytes that hold the items, and what follows.
pub open spec fn p_vector_frame(s: Seq<u8>) -> Option<(int, Seq<u8>, Seq<u8>)> {
    match p_i32(s) {
        None => None,
        Some((size, r1)) => match p_i32(r1) {
            None => None,
            Some((count, r)) => if size < 8 || count < 0 || r.len() < size - 8 {
                None
            } else {
                Some((count as int, r.take(size - 8), r.skip(size - 8)))
            },
        },
    }
}

pub proof fn lemma_lei32(v: i32)
    ensures
        lei32(v).len() == 4,
        p_i32(lei32(v) + Seq::<u8>::empty()) == Some((v, Seq::<u8>::empty())),
        forall|rest: Seq<u8>| #[trigger] p_i32(lei32(v) + rest) == Some((v, rest)),
{
    let u = u32_of_i32(v);
    lemma_le32(u);
    assert(i32_of_u32(u) == v);
    assert forall|rest: Seq<u8>| #[trigger] p_i32(lei32(v) + rest) == Some((v, rest)) by {
        let all = lei32(v) + rest;
        assert(all.skip(4) =~= rest);
        assert(all[0] == lei32(v)[0] && all[1] == lei32(v)[1] && all[2] == lei32(v)[2] && all[3] == lei32(v)[3]);
        assert(get32(all) == get32(lei32(v)));
    }
}

proof fn lemma_overwrite_header(old_buf: Seq<u8>, pos: int, body: Seq<u8>, v: i32)
    requires
        pos == old_buf.len(),
    ensures
        (old_buf + lei32(0) + body).take(pos) + lei32(v) + (old_buf + lei32(0) + body).skip(pos + 4)
            == old_buf + lei32(v) + body,
{
    let all = old_buf + lei32(0) + body;
    assert(all.take(pos) =~= old_buf);
    assert(all.skip(pos + 4) =~= body);
}

impl Writer {
    /// Overwrites the four bytes at `pos` with the little-endian form of `value`.
    pub fn write_i32_at(&mut self, pos: usize, value: i32)
        requires
            pos + 4 <= old(self)@.len(),
        ensures
            final(self)@ == old(self)@.take(pos as int) + lei32(value) + old(self)@.skip(pos + 4),
    {
        let wide: i64 = if value >= 0 { value as i64 } else { value as i64 + 4294967296 };
        let u = wide as u32;
        let n = self.buf.len();
        assert(pos + 4 <= n);
        self.buf.set(pos, (u % 256) as u8);
        self.buf.set(pos + 1, ((u / 256) % 256) as u8);
        self.buf.set(pos + 2, ((u / 65536) % 256) as u8);
        self.buf.set(pos + 3, (u / 16777216) as u8);
        assert(self@ =~= old(self)@.take(pos as int) + lei32(value) + old(self)@.skip(pos + 4));
    }

    /// Current length of the buffer.
    pub fn len(&self) -> (n: usize)
        ensures
            n == self@.len(),
    {
        self.buf.len()
    }

    /// Writes a size-prefixed UTF-16LE string.
    pub fn write_string(&mut self, value: &str)
        requires
            s_string(value@).len() <= i32::MAX,
        ensures
            final(self)@ == old(self)@ + s_string(value@),
    {
        reveal(s_string);
        let cs = chars_of(value);
        let us = encode_utf16(cs.as_slice());
        let n = us.len();
        proof {
            assert(s_string(value@).len() == 6 + 2 * n);
        }
        let size: usize = 6 + 2 * n;
        self.write_i32(size as i32);
        let ghost head = self@;
        let mut i: usize = 0;
        assert(units_le(us@.take(0)) =~= Seq::<u8>::empty());
        while i < n
            invariant
                n == us@.len(),
                i <= n,
                self@ == head + units_le(us@.take(i as int)),
            decreases n - i,
        {
            self.write_u16(us[i]);
            i = i + 1;
            assert(units_le(us@.take(i as int)) =~= units_le(us@.take(i - 1)) + le16(us@[i - 1]));
        }
        assert(us@.take(n as int) =~= us@);
        self.write_u16(0);
        assert(self@ =~= old(self)@ + s_string(value@));
    }

    /// Starts a struct frame; returns where its size goes.
    pub fn begin_struct(&mut self) -> (pos: usize)
        ensures
            pos == old(self)@.len(),
            final(self)@ == old(self)@ + lei32(0),
    {
        let pos = self.buf.len();
        self.write_i32(0);
        pos
    }

    /// Ends the struct frame begun at `pos`: its size becomes the length written since.
    pub fn end_struct(&mut self, pos: usize, Ghost(prefix): Ghost<Seq<u8>>, Ghost(body): Ghost<Seq<u8>>)
        requires
            pos == prefix.len(),
            old(self)@ == prefix + lei32(0) + body,
            body.len() + 4 <= i32::MAX,
        ensures
            final(self)@ == prefix + s_frame(body),
    {
        let size = self.buf.len() - pos;
        proof { lemma_overwrite_header(prefix, pos as int, body, size as i32); }
        self.write_i32_at(pos, size as i32);
        assert(self@ =~= prefix + s_frame(body));
    }

    /// Starts a vector frame of `count` items; returns where its size goes.
    pub fn begin_vector(&mut self, count: usize) -> (pos: usize)
        requires
            count <= i32::MAX,
        ensures
            pos == old(self)@.len(),
            final(self)@ == old(self)@ + lei32(0) + lei32(count as i32),
    {
        let pos = self.buf.len();
        self.write_i32(0);
        self.write_i32(count as i32);
        pos
    }

    /// Ends the vector frame begun at `pos`: its size becomes the length written since.
    pub fn end_vector(
        &mut self,
        pos: usize,
        Ghost(prefix): Ghost<Seq<u8>>,
        Ghost(count): Ghost<int>,
        Ghost(body): Ghost<Seq<u8>>,
    )
        requires
            pos == prefix.len(),
            0 <= count <= i32::MAX,
            old(self)@ == prefix + lei32(0) + lei32(count as i32) + body,
            body.len() + 8 <= i32::MAX,
        ensures
            final(self)@ == prefix + s_vector(count, body),
    {
        let size = self.buf.len() - pos;
        proof {
            lemma_overwrite_header(prefix, pos as int, lei32(count as i32) + body, size as i32);
            assert(prefix + lei32(0) + lei32(count as i32) + body =~= prefix + lei32(0) + (lei32(count as i32) + body));
        }
        self.write_i32_at(pos, size as i32);
        assert(self@ =~= prefix + s_vector(count, body));
    }
}

impl<'a> Reader<'a> {
    /// Reads `len` raw bytes; where fewer remain, fails and reads nothing.
    pub fn read_bytes(&mut self, len: usize) -> (res: Result<Vec<u8>, EdcbError>)
        ensures
            old(self)@.len() < len ==> (res matches Err(EdcbError::Decode(_))) && final(self)@ == old(self)@,
            old(self)@.len() >= len ==> (res matches Ok(b) && b@ == old(self)@.take(len as int)
                && final(self)@ == old(self)@.skip(len as int)),
    {
        let b = self.read_exact(len)?;
        Ok(vstd::slice::slice_to_vec(b))
    }

    /// Reads the `i32` at the front without consuming it.
    pub fn peek_i32(&self) -> (res: Result<i32, EdcbError>)
        ensures
            p_i32(self@) matches Some((v, _)) ==> res == Ok::<i32, EdcbError>(v),
            p_i32(self@) is None ==> res matches Err(EdcbError::Decode(_)),
    {
        proof { use_type_invariant(self); }
        let mut copy = Reader { buf: self.buf, pos: self.pos };
        copy.read_i32()
    }

    /// Reads a size-prefixed UTF-16LE string.
    pub fn read_string(&mut self) -> (res: Result<String, EdcbError>)
        ensures
            p_string(old(self)@) matches Some((cs, rest)) ==> (res matches Ok(v) && v@ == cs && final(self)@ == rest),
            p_string(old(self)@) is None ==> res matches Err(EdcbError::Decode(_)),
    {
        reveal(p_string);
        let size = self.read_i32()?;
        let ghost r = self@;
        if size < 6 {
            return Err(decode_error_with("invalid string size ", size as i64));
        }
        let body_len = (size - 6) as usize;
        let total_len = (size - 4) as usize;
        if self.remaining() < total_len {
            return Err(decode_error_with("truncated string size ", size as i64));
        }
        if body_len % 2 != 0 {
            return Err(decode_error("UTF-16LE string has odd byte length"));
        }
        let raw = self.read_exact(body_len)?;
        let half = body_len / 2;
        let mut units: Vec<u16> = Vec::new();
        let mut i: usize = 0;
        while i < half
            invariant
                half * 2 == body_len,
                raw@.len() == body_len,
                i <= half,
                units@ == units_of(raw@).take(i as int),
            decreases half - i,
        {
            let u = (raw[2 * i] as u16) + 256 * (raw[2 * i + 1] as u16);
            units.push(u);
            i = i + 1;
            assert(units@ =~= units_of(raw@).take(i as int));
        }
        assert(units_of(raw@).take(half as int) =~= units_of(raw@));
        let cs = match decode_utf16(units.as_slice()) {
            Some(cs) => cs,
            None => { return Err(decode_error("invalid UTF-16LE string: invalid utf-16: lone surrogate found")); },
        };
        let value = string_from_chars(cs.as_slice());
        self.read_exact(2)?;
        assert(self@ =~= r.skip(size - 4));
        Ok(value)
    }

    /// Reads a struct frame; the returned reader holds exactly the struct's body.
    pub fn read_struct(&mut self) -> (res: Result<Reader<'a>, EdcbError>)
        ensures
            p_frame(old(self)@) matches Some((body, rest)) ==> (res matches Ok(child) && child@ == body
                && final(self)@ == rest),
            p_frame(old(self)@) is None ==> res matches Err(EdcbError::Decode(_)),
    {
        let size = self.read_i32()?;
        if size < 4 {
            return Err(decode_error_with("invalid struct size ", size as i64));
        }
        let body = self.read_exact((size - 4) as usize)?;
        Ok(Reader::new(body))
    }

    /// Reads a vector header; returns the item count and a reader over the items' bytes.
    pub fn read_vector_frame(&mut self) -> (res: Result<(usize, Reader<'a>), EdcbError>)
        ensures
            p_vector_frame(old(self)@) matches Some((count, body, rest)) ==> (res matches Ok((n, child))
                && n == count && child@ == body && final(self)@ == rest),
            p_vector_frame(old(self)@) is None ==> res matches Err(EdcbError::Decode(_)),
    {
        let size = self.read_i32()?;
        let count = self.read_i32()?;
        if size < 8 || count < 0 {
            let mut out: Vec<char> = Vec::new();
            push_str(&mut out, "invalid vector size ");
            push_signed_decimal(&mut out, size as i64);
            push_str(&mut out, " or count ");
            push_signed_decimal(&mut out, count as i64);
            return Err(EdcbError::Decode(string_from_chars(out.as_slice())));
        }
        let body = self.read_exact((size - 8) as usize)?;
        Ok((count as usize, Reader::new(body)))
    }
}

/// A `u16` with its two bytes exchanged.
pub open spec fn swap16(v: u16) -> u16 {
    ((v % 256) * 256 + v / 256) as u16
}

/// Exchanges the two bytes of a `u16` (a rotation by eight bits).
pub fn swap_bytes16(v: u16) -> (r: u16)
    ensures
        r == swap16(v),
{
    (v % 256) * 256 + v / 256
}

pub proof fn lemma_swap16(v: u16)
    ensures
        swap16(swap16(v)) == v,
{
}

} // verus!
