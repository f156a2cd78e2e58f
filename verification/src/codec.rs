use vstd::prelude::*;

use crate::error::{decode_error, EdcbError};
use crate::utf16::{lemma_units_le_roundtrip, lemma_utf16_roundtrip, units_le, utf16_units};
use crate::wire::{
    get16, get32, get64, le16, le32, le64, lei32, lemma_le32, lei64, lemma_lei32, p_frame, p_i32, p_i64, p_string, p_u16, p_u32, p_u8,
    p_vector_frame, s_frame, s_string, s_vector, u64_of_i64, Reader, Writer,
};

verus! {

/// A value with a wire form that a `Reader` can decode.
pub trait WireRead: Sized + DeepView {
    /// What decoding the front of `s` gives, and the bytes after it.
    spec fn parse(s: Seq<u8>) -> Option<(Self::V, Seq<u8>)>;

    fn read_from(r: &mut Reader<'_>) -> (res: Result<Self, EdcbError>)
        ensures
            Self::parse(old(r)@) matches Some((m, rest)) ==> (res matches Ok(v) && v.deep_view() == m
                && final(r)@ == rest),
            Self::parse(old(r)@) is None ==> res matches Err(EdcbError::Decode(_)),
    ;
}

/// A value with a wire form that a `Writer` can encode.
pub trait WireWrite: DeepView {
    /// The bytes that encode `m`.
    spec fn wire(m: Self::V) -> Seq<u8>;

    /// The values that can be written (a date must exist, for one).
    spec fn writable(m: Self::V) -> bool;

    proof fn lemma_wire_nonempty(m: Self::V)
        ensures
            Self::wire(m).len() >= 1,
    ;

    fn write_to(&self, w: &mut Writer)
        requires
            Self::writable(self.deep_view()),
            Self::wire(self.deep_view()).len() <= i32::MAX,
        ensures
            final(w)@ == old(w)@ + Self::wire(self.deep_view()),
    ;
}

impl WireRead for u16 {
    open spec fn parse(s: Seq<u8>) -> Option<(u16, Seq<u8>)> {
        p_u16(s)
    }

    fn read_from(r: &mut Reader<'_>) -> (res: Result<u16, EdcbError>) {
        r.read_u16()
    }
}

impl WireWrite for u16 {
    open spec fn wire(m: u16) -> Seq<u8> {
        le16(m)
    }

    open spec fn writable(m: u16) -> bool {
        true
    }

    proof fn lemma_wire_nonempty(m: u16) {
    }

    fn write_to(&self, w: &mut Writer) {
        w.write_u16(*self);
    }
}

impl WireRead for i32 {
    open spec fn parse(s: Seq<u8>) -> Option<(i32, Seq<u8>)> {
        p_i32(s)
    }

    fn read_from(r: &mut Reader<'_>) -> (res: Result<i32, EdcbError>) {
        r.read_i32()
    }
}

impl WireWrite for i32 {
    open spec fn wire(m: i32) -> Seq<u8> {
        lei32(m)
    }

    open spec fn writable(m: i32) -> bool {
        true
    }

    proof fn lemma_wire_nonempty(m: i32) {
    }

    fn write_to(&self, w: &mut Writer) {
        w.write_i32(*self);
    }
}

impl WireRead for i64 {
    open spec fn parse(s: Seq<u8>) -> Option<(i64, Seq<u8>)> {
        p_i64(s)
    }

    fn read_from(r: &mut Reader<'_>) -> (res: Result<i64, EdcbError>) {
        r.read_i64()
    }
}

impl WireWrite for i64 {
    open spec fn wire(m: i64) -> Seq<u8> {
        lei64(m)
    }

    open spec fn writable(m: i64) -> bool {
        true
    }

    proof fn lemma_wire_nonempty(m: i64) {
    }

    fn write_to(&self, w: &mut Writer) {
        w.write_i64(*self);
    }
}

impl WireRead for String {
    open spec fn parse(s: Seq<u8>) -> Option<(Seq<char>, Seq<u8>)> {
        p_string(s)
    }

    fn read_from(r: &mut Reader<'_>) -> (res: Result<String, EdcbError>) {
        r.read_string()
    }
}

impl WireWrite for String {
    open spec fn wire(m: Seq<char>) -> Seq<u8> {
        s_string(m)
    }

    open spec fn writable(m: Seq<char>) -> bool {
        true
    }

    proof fn lemma_wire_nonempty(m: Seq<char>) {
        reveal(s_string);
    }

    fn write_to(&self, w: &mut Writer) {
        w.write_string(self.as_str());
    }
}

/// Decodes `n` items one after another from the front of `b`.
pub open spec fn p_elems<T: WireRead>(b: Seq<u8>, n: nat) -> Option<Seq<T::V>>
    decreases n,
{
    if n == 0 {
        Some(Seq::empty())
    } else {
        match T::parse(b) {
            None => None,
            Some((m, r)) => match p_elems::<T>(r, (n - 1) as nat) {
                None => None,
                Some(ms) => Some(seq![m] + ms),
            },
        }
    }
}

/// Reads a vector: a header, then `count` items from the bytes the header delimits.
/// Bytes of that region after the last item are skipped.
#[verifier::opaque]
pub open spec fn p_vector<T: WireRead>(s: Seq<u8>) -> Option<(Seq<T::V>, Seq<u8>)> {
    match p_vector_frame(s) {
        None => None,
        Some((count, body, rest)) => match p_elems::<T>(body, count as nat) {
            None => None,
            Some(ms) => Some((ms, rest)),
        },
    }
}

/// The encodings of the items of `ms`, one after another.
pub open spec fn elems_wire<T: WireWrite>(ms: Seq<T::V>) -> Seq<u8>
    decreases ms.len(),
{
    if ms.len() == 0 {
        Seq::empty()
    } else {
        elems_wire::<T>(ms.drop_last()) + T::wire(ms.last())
    }
}

/// Wire form of a vector of items.
#[verifier::opaque]
pub open spec fn vector_wire<T: WireWrite>(ms: Seq<T::V>) -> Seq<u8> {
    s_vector(ms.len() as int, elems_wire::<T>(ms))
}

spec fn prepend_items<V>(p: Seq<V>, o: Option<Seq<V>>) -> Option<Seq<V>> {
    match o {
        Some(r) => Some(p + r),
        None => None,
    }
}

pub proof fn lemma_elems_wire_len<T: WireWrite>(ms: Seq<T::V>, k: int)
    requires
        0 <= k <= ms.len(),
    ensures
        elems_wire::<T>(ms.take(k)).len() <= elems_wire::<T>(ms).len(),
        elems_wire::<T>(ms).len() >= ms.len(),
    decreases ms.len(),
{
    if ms.len() > 0 {
        T::lemma_wire_nonempty(ms.last());
        if k == ms.len() {
            assert(ms.take(k) =~= ms);
            lemma_elems_wire_len::<T>(ms.drop_last(), 0);
        } else {
            assert(ms.take(k) =~= ms.drop_last().take(k));
            lemma_elems_wire_len::<T>(ms.drop_last(), k);
        }
    }
}

impl<'a> Reader<'a> {
    /// Reads a vector of `T`.
    pub fn read_vector<T: WireRead>(&mut self) -> (res: Result<Vec<T>, EdcbError>)
        ensures
            p_vector::<T>(old(self)@) matches Some((ms, rest)) ==> (res matches Ok(v) && v.deep_view()
                == ms && final(self)@ == rest),
            p_vector::<T>(old(self)@) is None ==> res matches Err(EdcbError::Decode(_)),
    {
        reveal(p_vector);
        let (count, mut child) = self.read_vector_frame()?;
        let ghost body = child@;
        let ghost rest = self@;
        let mut values: Vec<T> = Vec::new();
        let mut i: usize = 0;
        assert(values.deep_view() =~= Seq::<T::V>::empty());
        while i < count
            invariant
                i <= count,
                p_vector_frame(old(self)@) == Some((count as int, body, rest)),
                self@ == rest,
                p_elems::<T>(body, count as nat) == prepend_items(
                    values.deep_view(),
                    p_elems::<T>(child@, (count - i) as nat),
                ),
            decreases count - i,
        {
            let ghost before = child@;
            let ghost old_values = values.deep_view();
            let item = match T::read_from(&mut child) {
                Ok(x) => x,
                Err(e) => {
                    assert(p_elems::<T>(before, (count - i) as nat) is None);
                    proof { reveal(p_vector); }
                    return Err(e);
                },
            };
            values.push(item);
            i = i + 1;
            proof {
                assert(values.deep_view() =~= old_values.push(item.deep_view()));
                if let Some(r) = p_elems::<T>(child@, (count - i) as nat) {
                    assert(old_values + (seq![item.deep_view()] + r) =~= values.deep_view() + r);
                }
            }
        }
        assert(values.deep_view() + Seq::<T::V>::empty() =~= values.deep_view());
        Ok(values)
    }
}

impl Writer {
    /// Writes a vector of `T`.
    pub fn write_vector<T: WireWrite>(&mut self, values: &[T])
        requires
            forall|i: int| 0 <= i < values@.len() ==> T::writable(#[trigger] values.deep_view()[i]),
            vector_wire::<T>(values.deep_view()).len() <= i32::MAX,
        ensures
            final(self)@ == old(self)@ + vector_wire::<T>(values.deep_view()),
    {
        reveal(vector_wire);
        let ghost ms = values.deep_view();
        let ghost prefix = self@;
        let n = values.len();
        proof { lemma_elems_wire_len::<T>(ms, 0); }
        let pos = self.begin_vector(n);
        let ghost head = self@;
        let mut i: usize = 0;
        assert(ms.take(0) =~= Seq::<T::V>::empty());
        while i < n
            invariant
                n == values@.len(),
                ms == values.deep_view(),
                forall|j: int| 0 <= j < values@.len() ==> T::writable(#[trigger] ms[j]),
                elems_wire::<T>(ms).len() + 8 <= i32::MAX,
                i <= n,
                self@ == head + elems_wire::<T>(ms.take(i as int)),
            decreases n - i,
        {
            proof {
                lemma_elems_wire_len::<T>(ms, i + 1);
                assert(ms.take(i + 1).drop_last() =~= ms.take(i as int));
                assert(ms.take(i + 1).last() == values[i as int].deep_view());
            }
            values[i].write_to(self);
            i = i + 1;
        }
        assert(ms.take(n as int) =~= ms);
        self.end_vector(pos, Ghost(prefix), Ghost(n as int), Ghost(elems_wire::<T>(ms)));
    }
}


/// A wire form whose decoding gives back what was encoded, for the values `canonical` admits.
pub trait WireRoundtrip: WireRead + WireWrite {
    /// The values that survive an encode and decode unchanged.
    spec fn canonical(m: <Self as DeepView>::V) -> bool;

    proof fn lemma_roundtrip(m: <Self as DeepView>::V, rest: Seq<u8>)
        requires
            Self::canonical(m),
            Self::wire(m).len() <= i32::MAX,
        ensures
            Self::parse(Self::wire(m) + rest) == Some((m, rest)),
    ;
}

impl WireRoundtrip for u16 {
    open spec fn canonical(m: u16) -> bool {
        true
    }

    proof fn lemma_roundtrip(m: u16, rest: Seq<u8>) {
        assert((le16(m) + rest).skip(2) =~= rest);
    }
}

impl WireRoundtrip for i32 {
    open spec fn canonical(m: i32) -> bool {
        true
    }

    proof fn lemma_roundtrip(m: i32, rest: Seq<u8>) {
        lemma_lei32(m);
    }
}

proof fn lemma_le64(u: u64)
    ensures
        get64(le64(u)) == u,
        le64(u).len() == 8,
{
    let lo = (u % 4294967296) as u32;
    let hi = (u / 4294967296) as u32;
    assert(le64(u).skip(4) =~= le32(hi));
    assert(le64(u).take(4) =~= le32(lo));
    lemma_le32(lo);
    lemma_le32(hi);
    assert(get32(le64(u)) == get32(le32(lo)));
    assert(u == lo + 4294967296 * hi);
}

impl WireRoundtrip for i64 {
    open spec fn canonical(m: i64) -> bool {
        true
    }

    proof fn lemma_roundtrip(m: i64, rest: Seq<u8>) {
        let u = u64_of_i64(m);
        lemma_le64(u);
        let all = lei64(m) + rest;
        assert(all.skip(8) =~= rest);
        assert(all.skip(4).take(4) =~= lei64(m).skip(4).take(4));
        assert(get64(all) == get64(lei64(m)));
    }
}

/// A written string reads back as the same characters.
pub proof fn lemma_string_roundtrip(cs: Seq<char>, rest: Seq<u8>)
    requires
        s_string(cs).len() <= i32::MAX,
    ensures
        p_string(s_string(cs) + rest) == Some((cs, rest)),
{
    reveal(s_string);
    reveal(p_string);
    let us = utf16_units(cs);
    lemma_units_le_roundtrip(us);
    lemma_utf16_roundtrip(cs);
    let size = (6 + 2 * us.len()) as i32;
    let all = s_string(cs) + rest;
    lemma_lei32(size);
    assert(all =~= lei32(size) + (units_le(us) + le16(0) + rest));
    let r = units_le(us) + le16(0) + rest;
    assert(r.take(size - 6) =~= units_le(us));
    assert(r.skip(size - 4) =~= rest);
}

impl WireRoundtrip for String {
    open spec fn canonical(m: Seq<char>) -> bool {
        true
    }

    proof fn lemma_roundtrip(m: Seq<char>, rest: Seq<u8>) {
        lemma_string_roundtrip(m, rest);
    }
}

/// A written struct frame reads back as the same body.
pub proof fn lemma_frame_roundtrip(body: Seq<u8>, rest: Seq<u8>)
    requires
        body.len() + 4 <= i32::MAX,
    ensures
        p_frame(s_frame(body) + rest) == Some((body, rest)),
{
    let size = (body.len() + 4) as i32;
    lemma_lei32(size);
    assert(s_frame(body) + rest =~= lei32(size) + (body + rest));
    assert((body + rest).take(size - 4) =~= body);
    assert((body + rest).skip(size - 4) =~= rest);
}

proof fn lemma_elems_roundtrip<T: WireRoundtrip>(ms: Seq<<T as DeepView>::V>, rest: Seq<u8>)
    requires
        forall|i: int| 0 <= i < ms.len() ==> T::canonical(#[trigger] ms[i]),
        elems_wire::<T>(ms).len() <= i32::MAX,
    ensures
        p_elems::<T>(elems_wire::<T>(ms) + rest, ms.len()) == Some(ms),
    decreases ms.len(),
{
    if ms.len() > 0 {
        let first = ms[0];
        let tail = ms.drop_first();
        lemma_elems_front::<T>(ms);
        lemma_elems_wire_len::<T>(ms, 0);
        assert(elems_wire::<T>(ms).len() == T::wire(first).len() + elems_wire::<T>(tail).len());
        T::lemma_roundtrip(first, elems_wire::<T>(tail) + rest);
        assert(elems_wire::<T>(ms) + rest =~= T::wire(first) + (elems_wire::<T>(tail) + rest));
        assert forall|i: int| 0 <= i < tail.len() implies T::canonical(#[trigger] tail[i]) by {
            assert(tail[i] == ms[i + 1]);
        }
        lemma_elems_roundtrip::<T>(tail, rest);
        assert(seq![first] + tail =~= ms);
    }
}

/// The encoding of a sequence is the first item's encoding, then the rest's.
proof fn lemma_elems_front<T: WireWrite>(ms: Seq<<T as DeepView>::V>)
    requires
        ms.len() > 0,
    ensures
        elems_wire::<T>(ms) == T::wire(ms[0]) + elems_wire::<T>(ms.drop_first()),
    decreases ms.len(),
{
    if ms.len() == 1 {
        assert(ms.drop_last() =~= Seq::<<T as DeepView>::V>::empty());
        assert(ms.drop_first() =~= Seq::<<T as DeepView>::V>::empty());
        assert(T::wire(ms[0]) + Seq::<u8>::empty() =~= T::wire(ms[0]));
    } else {
        lemma_elems_front::<T>(ms.drop_last());
        assert(ms.drop_last().drop_first() =~= ms.drop_first().drop_last());
        assert(ms.drop_first().last() == ms.last());
        assert(ms.drop_last()[0] == ms[0]);
    }
}

/// A written vector reads back as the same items, when each item reads back as itself.
pub proof fn lemma_vector_roundtrip<T: WireRoundtrip>(ms: Seq<<T as DeepView>::V>, rest: Seq<u8>)
    requires
        forall|i: int| 0 <= i < ms.len() ==> T::canonical(#[trigger] ms[i]),
        vector_wire::<T>(ms).len() <= i32::MAX,
    ensures
        p_vector::<T>(vector_wire::<T>(ms) + rest) == Some((ms, rest)),
{
    reveal(vector_wire);
    reveal(p_vector);
    let body = elems_wire::<T>(ms);
    lemma_elems_wire_len::<T>(ms, 0);
    let size = (body.len() + 8) as i32;
    let count = ms.len() as i32;
    lemma_lei32(size);
    lemma_lei32(count);
    let all = vector_wire::<T>(ms) + rest;
    assert(all =~= lei32(size) + (lei32(count) + (body + rest)));
    assert((body + rest).take(size - 8) =~= body);
    assert((body + rest).skip(size - 8) =~= rest);
    lemma_elems_roundtrip::<T>(ms, Seq::empty());
    assert(body + Seq::<u8>::empty() =~= body);
}

pub proof fn lemma_u8_roundtrip(v: u8, rest: Seq<u8>)
    ensures
        p_u8(seq![v] + rest) == Some((v, rest)),
{
    assert((seq![v] + rest).skip(1) =~= rest);
}

pub proof fn lemma_u32_roundtrip(v: u32, rest: Seq<u8>)
    ensures
        p_u32(le32(v) + rest) == Some((v, rest)),
{
    lemma_le32(v);
    assert((le32(v) + rest).skip(4) =~= rest);
    assert(get32(le32(v) + rest) == get32(le32(v)));
}

/// Reads an optional struct: an `i32` of 4 (an empty frame) stands for none.
pub open spec fn p_optional<T: WireRead>(s: Seq<u8>) -> Option<(Option<<T as DeepView>::V>, Seq<u8>)> {
    match p_i32(s) {
        None => None,
        Some((v, r)) => if v == 4 {
            Some((None, r))
        } else {
            match T::parse(s) {
                None => None,
                Some((m, r2)) => Some((Some(m), r2)),
            }
        },
    }
}

/// Reads an optional struct: an `i32` of 4 (an empty frame) stands for none.
pub fn read_optional_struct<T: WireRead>(r: &mut Reader<'_>) -> (res: Result<Option<T>, EdcbError>)
    ensures
        p_optional::<T>(old(r)@) matches Some((m, rest)) ==> (res matches Ok(v) && v.deep_view() == m
            && final(r)@ == rest),
        p_optional::<T>(old(r)@) is None ==> res matches Err(EdcbError::Decode(_)),
{
    if r.peek_i32()? == 4 {
        r.read_i32()?;
        Ok(None)
    } else {
        let v = T::read_from(r)?;
        Ok(Some(v))
    }
}

} // verus!
