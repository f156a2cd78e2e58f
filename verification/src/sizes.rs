use vstd::prelude::*;

use crate::codec::{elems_wire, vector_wire, WireWrite};
use crate::datetime::{s_system_time, DateTime};
use crate::text::chars_of;
use crate::types::{RecFileSetInfo, RecSettingData, ReserveData};
use crate::records::{s_rec_file_set_info_body, s_rec_setting_data_body, s_reserve_data_body};
use crate::utf16::encode_utf16;
use crate::wire::{le16, le32, lei32, s_frame, s_string, s_vector};

verus! {

/// The largest encoding this library builds: a request frame gives its payload's length as
/// an `i32`, and a versioned payload is two bytes of version followed by the encoding.
pub const WIRE_LIMIT: u64 = 0x7fff_fffd;

/// The length of an encoding if it is within `WIRE_LIMIT`.
pub open spec fn sized(n: Option<u64>, wire: Seq<u8>) -> bool {
    match n {
        Some(k) => k == wire.len() && k <= WIRE_LIMIT,
        None => wire.len() > WIRE_LIMIT,
    }
}

fn plus(a: Option<u64>, b: Option<u64>) -> (r: Option<u64>)
    ensures
        match (a, b) {
            (Some(x), Some(y)) => if x + y <= WIRE_LIMIT { r == Some((x + y) as u64) } else { r is None },
            _ => r is None,
        },
{
    match (a, b) {
        (Some(x), Some(y)) => if x <= WIRE_LIMIT && y <= WIRE_LIMIT - x {
            Some(x + y)
        } else {
            None
        },
        _ => None,
    }
}

fn fixed(k: u64) -> (r: Option<u64>)
    requires
        k <= WIRE_LIMIT,
    ensures
        r == Some(k),
{
    Some(k)
}

/// The length of a string's encoding.
pub fn string_wire_len(s: &str) -> (n: Option<u64>)
    ensures
        sized(n, s_string(s@)),
{
    reveal(s_string);
    let cs = chars_of(s);
    let us = encode_utf16(cs.as_slice());
    let k = us.len();
    assert(s_string(s@).len() == 6 + 2 * k);
    if k > 0x3fff_fffb {
        None
    } else {
        Some(6 + 2 * (k as u64))
    }
}

proof fn lemma_system_time_len(v: DateTime)
    ensures
        s_system_time(v).len() == 16,
{
    reveal(s_system_time);
}

/// The length of a recording folder's encoding.
pub fn rec_file_set_info_wire_len(f: &RecFileSetInfo) -> (n: Option<u64>)
    ensures
        sized(n, <RecFileSetInfo as WireWrite>::wire(f.deep_view())),
{
    reveal(s_string);
    let ghost m = f.deep_view();
    assert(s_string(Seq::<char>::empty()).len() == 6);
    let a = string_wire_len(f.rec_folder.as_str());
    let b = string_wire_len(f.write_plug_in.as_str());
    let c = string_wire_len(f.rec_name_plug_in.as_str());
    let body = plus(plus(plus(a, b), c), fixed(6));
    reveal(s_rec_file_set_info_body);
    assert(s_rec_file_set_info_body(m).len() == s_string(m.rec_folder).len() + s_string(
        m.write_plug_in,
    ).len() + s_string(m.rec_name_plug_in).len() + 6);
    plus(fixed(4), body)
}

/// The length of the encoding of a list of recording folders.
pub fn folders_wire_len(v: &Vec<RecFileSetInfo>) -> (n: Option<u64>)
    ensures
        sized(n, vector_wire::<RecFileSetInfo>(v.deep_view())),
{
    reveal(vector_wire);
    let ghost ms = v.deep_view();
    let mut total: Option<u64> = Some(0);
    assert(elems_wire::<RecFileSetInfo>(ms.take(0)).len() == 0) by {
        assert(ms.take(0) =~= Seq::<<RecFileSetInfo as DeepView>::V>::empty());
    }
    for i in 0..v.len()
        invariant
            ms == v.deep_view(),
            ms.len() == v@.len(),
            total matches Some(t) ==> t == elems_wire::<RecFileSetInfo>(ms.take(i as int)).len() && t
                <= WIRE_LIMIT,
            total is None ==> elems_wire::<RecFileSetInfo>(ms.take(i as int)).len() > WIRE_LIMIT,
    {
        let e = rec_file_set_info_wire_len(&v[i]);
        proof {
            assert(ms.take(i + 1).drop_last() =~= ms.take(i as int));
            assert(ms.take(i + 1).last() == ms[i as int]);
        }
        total = plus(total, e);
    }
    assert(ms.take(v.len() as int) =~= ms);
    plus(fixed(8), total)
}

/// The length of the encoding of a list of strings.
pub fn strings_wire_len(v: &Vec<String>) -> (n: Option<u64>)
    ensures
        sized(n, vector_wire::<String>(v.deep_view())),
{
    reveal(vector_wire);
    let ghost ms = v.deep_view();
    let mut total: Option<u64> = Some(0);
    assert(elems_wire::<String>(ms.take(0)).len() == 0) by {
        assert(ms.take(0) =~= Seq::<Seq<char>>::empty());
    }
    for i in 0..v.len()
        invariant
            ms == v.deep_view(),
            ms.len() == v@.len(),
            total matches Some(t) ==> t == elems_wire::<String>(ms.take(i as int)).len() && t
                <= WIRE_LIMIT,
            total is None ==> elems_wire::<String>(ms.take(i as int)).len() > WIRE_LIMIT,
    {
        let e = string_wire_len(v[i].as_str());
        proof {
            assert(ms.take(i + 1).drop_last() =~= ms.take(i as int));
            assert(ms.take(i + 1).last() == ms[i as int]);
        }
        total = plus(total, e);
    }
    assert(ms.take(v.len() as int) =~= ms);
    plus(fixed(8), total)
}

/// The length of the encoding of recording settings.
pub fn rec_setting_wire_len(s: &RecSettingData) -> (n: Option<u64>)
    ensures
        sized(n, <RecSettingData as WireWrite>::wire(s.deep_view())),
{
    let ghost m = s.deep_view();
    let bat = string_wire_len(s.bat_file_path.as_str());
    let folders = folders_wire_len(&s.rec_folder_list);
    let partial = folders_wire_len(&s.partial_rec_folder);
    reveal(s_rec_setting_data_body);
    assert(s_rec_setting_data_body(m).len() == 8 + s_string(m.bat_file_path).len()
        + vector_wire::<RecFileSetInfo>(m.rec_folder_list).len() + 17 + vector_wire::<RecFileSetInfo>(
        m.partial_rec_folder,
    ).len());
    let body = plus(plus(plus(plus(fixed(8), bat), folders), fixed(17)), partial);
    plus(fixed(4), body)
}

/// The length of the encoding of a reservation.
#[verifier::spinoff_prover]
#[verifier::rlimit(50)]
pub fn reserve_wire_len(r: &ReserveData) -> (n: Option<u64>)
    ensures
        sized(n, <ReserveData as WireWrite>::wire(r.deep_view())),
{
    reveal(s_string);
    let ghost m = r.deep_view();
    proof {
        lemma_system_time_len(m.start_time);
        lemma_system_time_len(m.start_time_epg);
    }
    let title = string_wire_len(r.title.as_str());
    let station = string_wire_len(r.station_name.as_str());
    let comment = string_wire_len(r.comment.as_str());
    let setting = rec_setting_wire_len(&r.rec_setting);
    let names = strings_wire_len(&r.rec_file_name_list);
    reveal(s_reserve_data_body);
    assert(s_reserve_data_body(m).len() == s_string(m.title).len() + 20 + s_string(m.station_name).len()
        + 8 + s_string(m.comment).len() + 28 + <RecSettingData as WireWrite>::wire(m.rec_setting).len()
        + 4 + vector_wire::<String>(m.rec_file_name_list).len() + 4);
    let a = plus(plus(title, fixed(20)), station);
    let b = plus(plus(plus(a, fixed(8)), comment), fixed(28));
    let c = plus(plus(plus(plus(b, setting), fixed(4)), names), fixed(4));
    plus(fixed(4), c)
}

/// The length of the encoding of a list of one reservation.
pub fn one_reserve_vector_wire_len(r: &ReserveData) -> (n: Option<u64>)
    ensures
        sized(n, vector_wire::<ReserveData>(seq![r.deep_view()])),
{
    reveal(vector_wire);
    let ghost ms = seq![r.deep_view()];
    assert(ms.drop_last() =~= Seq::<<ReserveData as DeepView>::V>::empty());
    assert(elems_wire::<ReserveData>(ms.drop_last()) =~= Seq::<u8>::empty());
    assert(elems_wire::<ReserveData>(ms) =~= Seq::<u8>::empty() + <ReserveData as WireWrite>::wire(r.deep_view()));
    assert(elems_wire::<ReserveData>(ms) == <ReserveData as WireWrite>::wire(r.deep_view()));
    let e = reserve_wire_len(r);
    plus(fixed(8), e)
}

} // verus!
