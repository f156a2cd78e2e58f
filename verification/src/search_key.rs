use vstd::prelude::*;

use crate::codec::{p_vector, vector_wire, WireRead, WireWrite};
use vstd::seq_lib::lemma_concat_associative;
use crate::error::EdcbError;
use crate::text::{chars_of, digits_value, is_digit, pow10, string_from_chars};
use crate::types::{ContentData, ContentDataModel, SearchDateInfo, SearchDateInfoModel};
use crate::wire::{le16, lei32, lei64, p_frame, p_i32, p_string, p_u16, p_u8, s_frame, s_string, Reader, Writer};

verus! {

/// A keyword search condition.
#[derive(Debug, Clone, PartialEq, Eq, Default)]
pub struct SearchKeyInfo {
    pub and_key: String,
    pub not_key: String,
    pub key_disabled: bool,
    pub case_sensitive: bool,
    pub reg_exp_flag: bool,
    pub title_only_flag: bool,
    pub content_list: Vec<ContentData>,
    pub date_list: Vec<SearchDateInfo>,
    pub service_list: Vec<i64>,
    pub video_list: Vec<u16>,
    pub audio_list: Vec<u16>,
    pub aimai_flag: bool,
    pub not_contet_flag: bool,
    pub not_date_flag: bool,
    pub free_ca_flag: u8,
    pub chk_rec_end: bool,
    pub chk_rec_day: u16,
    pub chk_rec_no_service: bool,
    pub chk_duration_min: u16,
    pub chk_duration_max: u16,
}

/// What a `SearchKeyInfo` holds, with strings as characters.
pub struct SearchKeyInfoModel {
    pub and_key: Seq<char>,
    pub not_key: Seq<char>,
    pub key_disabled: bool,
    pub case_sensitive: bool,
    pub reg_exp_flag: bool,
    pub title_only_flag: bool,
    pub content_list: Seq<ContentDataModel>,
    pub date_list: Seq<SearchDateInfoModel>,
    pub service_list: Seq<i64>,
    pub video_list: Seq<u16>,
    pub audio_list: Seq<u16>,
    pub aimai_flag: bool,
    pub not_contet_flag: bool,
    pub not_date_flag: bool,
    pub free_ca_flag: u8,
    pub chk_rec_end: bool,
    pub chk_rec_day: u16,
    pub chk_rec_no_service: bool,
    pub chk_duration_min: u16,
    pub chk_duration_max: u16,
}

impl DeepView for SearchKeyInfo {
    type V = SearchKeyInfoModel;

    open spec fn deep_view(&self) -> SearchKeyInfoModel {
        SearchKeyInfoModel {
            and_key: self.and_key@,
            not_key: self.not_key@,
            key_disabled: self.key_disabled,
            case_sensitive: self.case_sensitive,
            reg_exp_flag: self.reg_exp_flag,
            title_only_flag: self.title_only_flag,
            content_list: self.content_list.deep_view(),
            date_list: self.date_list.deep_view(),
            service_list: self.service_list.deep_view(),
            video_list: self.video_list.deep_view(),
            audio_list: self.audio_list.deep_view(),
            aimai_flag: self.aimai_flag,
            not_contet_flag: self.not_contet_flag,
            not_date_flag: self.not_date_flag,
            free_ca_flag: self.free_ca_flag,
            chk_rec_end: self.chk_rec_end,
            chk_rec_day: self.chk_rec_day,
            chk_rec_no_service: self.chk_rec_no_service,
            chk_duration_min: self.chk_duration_min,
            chk_duration_max: self.chk_duration_max,
        }
    }
}

/// The marker that disables a search condition, as the first text of its keyword.
pub open spec fn key_disabled_marker() -> Seq<char> {
    seq!['^', '!', '{', '9', '9', '9', '}']
}

/// The marker of case-sensitive matching, at the front of a keyword.
pub open spec fn case_sensitive_marker() -> Seq<char> {
    seq!['C', '!', '{', '9', '9', '9', '}']
}

/// Whether `cs` begins with `p`.
pub open spec fn has_prefix(cs: Seq<char>, p: Seq<char>) -> bool {
    p.len() <= cs.len() && cs.take(p.len() as int) == p
}

/// `cs` with every leading repetition of a non-empty `p` removed.
pub open spec fn strip_all(cs: Seq<char>, p: Seq<char>) -> Seq<char>
    decreases cs.len(),
{
    if p.len() > 0 && has_prefix(cs, p) {
        strip_all(cs.skip(p.len() as int), p)
    } else {
        cs
    }
}

/// Whether a keyword starts with a duration marker `D!{1dddddddd}`.
pub open spec fn has_duration_marker(cs: Seq<char>) -> bool {
    &&& cs.len() >= 13
    &&& cs[0] == 'D' && cs[1] == '!' && cs[2] == '{' && cs[3] == '1'
    &&& forall|i: int| 4 <= i < 12 ==> is_digit(#[trigger] cs[i])
    &&& cs[12] == '}'
}

/// Splits a duration marker off a keyword: the rest of the keyword and the minimum and
/// maximum duration in minutes (the first and last four digits); zeros when there is none.
pub open spec fn split_duration_marker(cs: Seq<char>) -> (Seq<char>, u16, u16) {
    if has_duration_marker(cs) {
        let duration = 100000000 + digits_value(cs.subrange(4, 12));
        (cs.skip(13), ((duration / 10000) % 10000) as u16, (duration % 10000) as u16)
    } else {
        (cs, 0, 0)
    }
}

/// What the keyword field of a search condition says: disabled, case-sensitive, the keyword
/// itself, and the duration range.
pub open spec fn decode_and_key(raw: Seq<char>) -> (bool, bool, Seq<char>, u16, u16) {
    let disabled = has_prefix(raw, key_disabled_marker());
    let c1 = if disabled { strip_all(raw, key_disabled_marker()) } else { raw };
    let case_sensitive = has_prefix(c1, case_sensitive_marker());
    let c2 = if case_sensitive { strip_all(c1, case_sensitive_marker()) } else { c1 };
    let (key, min, max) = split_duration_marker(c2);
    (disabled, case_sensitive, key, min, max)
}

/// The eight decimal digits of `n` (below 10^8), with leading zeros.
pub open spec fn pad8(n: nat) -> Seq<char>
    decreases 8nat,
{
    Seq::new(8, |i: int| ((('0' as u32) + (n / pow10((7 - i) as nat)) % 10) as char))
}

/// The duration code written for a range: `min * 10000 + max`, modulo 10^8.
pub open spec fn duration_code(min: u16, max: u16) -> nat {
    ((min * 10000 + max) % 100000000) as nat
}

/// The keyword field written for a search condition: its markers, then the keyword.
pub open spec fn encode_and_key(m: SearchKeyInfoModel) -> Seq<char> {
    let code = duration_code(m.chk_duration_min, m.chk_duration_max);
    (if m.key_disabled { key_disabled_marker() } else { Seq::empty() }) + (if m.case_sensitive {
        case_sensitive_marker()
    } else {
        Seq::empty()
    }) + (if code > 0 { seq!['D', '!', '{', '1'] + pad8(code) + seq!['}'] } else { Seq::empty() })
        + m.and_key
}


/// Whether `cs` has `p` at position `at`.
fn prefix_at(cs: &[char], at: usize, p: &[char]) -> (b: bool)
    requires
        at <= cs@.len(),
    ensures
        b == has_prefix(cs@.skip(at as int), p@),
{
    let n = p.len();
    let m = cs.len();
    if m - at < n {
        return false;
    }
    let mut i: usize = 0;
    while i < n
        invariant
            n == p@.len(),
            m == cs@.len(),
            at + n <= m,
            i <= n,
            forall|j: int| 0 <= j < i ==> cs@[at + j] == p@[j],
        decreases n - i,
    {
        if cs[at + i] != p[i] {
            assert(cs@.skip(at as int).take(n as int)[i as int] != p@[i as int]);
            return false;
        }
        i = i + 1;
    }
    assert(cs@.skip(at as int).take(n as int) =~= p@);
    true
}

proof fn lemma_strip_step(cs: Seq<char>, p: Seq<char>, i: int)
    requires
        0 <= i,
        i + p.len() <= cs.len(),
        p.len() > 0,
        has_prefix(cs.skip(i), p),
    ensures
        strip_all(cs.skip(i), p) == strip_all(cs.skip(i + p.len()), p),
{
    assert(cs.skip(i).skip(p.len() as int) =~= cs.skip(i + p.len()));
}

/// `cs` with every leading repetition of `p` removed.
fn strip_prefix_all(cs: &[char], p: &[char]) -> (r: Vec<char>)
    requires
        p@.len() > 0,
    ensures
        r@ == strip_all(cs@, p@),
{
    let n = cs.len();
    let mut i: usize = 0;
    assert(cs@.skip(0) =~= cs@);
    while i <= n && prefix_at(cs, i, p)
        invariant
            n == cs@.len(),
            p@.len() > 0,
            i <= n,
            strip_all(cs@, p@) == strip_all(cs@.skip(i as int), p@),
        decreases n - i,
    {
        proof { lemma_strip_step(cs@, p@, i as int); }
        i = i + p.len();
    }
    let mut r: Vec<char> = Vec::new();
    let mut j: usize = i;
    while j < n
        invariant
            n == cs@.len(),
            i <= j <= n,
            r@ == cs@.subrange(i as int, j as int),
        decreases n - j,
    {
        r.push(cs[j]);
        j = j + 1;
        assert(r@ =~= cs@.subrange(i as int, j as int));
    }
    assert(r@ =~= cs@.skip(i as int));
    r
}

/// Splits a duration marker `D!{1dddddddd}` off the front of a keyword: the rest of the keyword
/// and the minimum and maximum duration (the first and last four digits); without a marker, the
/// keyword unchanged and zeros.
pub fn parse_duration_prefix(value: &str) -> (r: (String, u16, u16))
    ensures
        (r.0@, r.1, r.2) == split_duration_marker(value@),
{
    let cs = chars_of(value);
    let n = cs.len();
    let mut marked = n >= 13 && cs[0] == 'D' && cs[1] == '!' && cs[2] == '{' && cs[3] == '1' && cs[12] == '}';
    let mut v: u32 = 0;
    if marked {
        let mut i: usize = 4;
        while i < 12 && '0' <= cs[i] && cs[i] <= '9'
            invariant
                n == cs@.len(),
                n >= 13,
                4 <= i <= 12,
                forall|j: int| 4 <= j < i ==> is_digit(#[trigger] cs@[j]),
            decreases 12 - i,
        {
            i = i + 1;
        }
        if i < 12 {
            marked = false;
            assert(!is_digit(cs@[i as int]));
        } else {
            let mut k: usize = 4;
            assert(cs@.subrange(4, 4) =~= Seq::<char>::empty());
            while k < 12
                invariant
                    n == cs@.len(),
                    n >= 13,
                    4 <= k <= 12,
                    forall|j: int| 4 <= j < 12 ==> is_digit(#[trigger] cs@[j]),
                    v == digits_value(cs@.subrange(4, k as int)),
                    v < pow10((k - 4) as nat),
                decreases 12 - k,
            {
                let c = cs[k];
                assert(is_digit(cs@[k as int]));
                proof {
                    assert(cs@.subrange(4, k + 1).drop_last() =~= cs@.subrange(4, k as int));
                    reveal_with_fuel(pow10, 9);
                }
                v = v * 10 + ((c as u32) - ('0' as u32));
                k = k + 1;
            }
            assert(has_duration_marker(cs@));
        }
    }
    if marked {
        proof { reveal_with_fuel(pow10, 9); }
        let duration: u32 = 100000000 + v;
        let rest = string_from_chars(&cs.as_slice()[13..n]);
        assert(rest@ =~= value@.skip(13));
        (rest, ((duration / 10000) % 10000) as u16, (duration % 10000) as u16)
    } else {
        let whole = string_from_chars(cs.as_slice());
        (whole, 0, 0)
    }
}


/// Reads what the keyword field of a search condition says.
fn decode_and_key_text(raw: &str) -> (r: (bool, bool, String, u16, u16))
    ensures
        (r.0, r.1, r.2@, r.3, r.4) == decode_and_key(raw@),
{
    let cs = chars_of(raw);
    let disabled_marker = vec!['^', '!', '{', '9', '9', '9', '}'];
    let case_marker = vec!['C', '!', '{', '9', '9', '9', '}'];
    assert(cs@.skip(0) =~= cs@);
    assert(disabled_marker@ == key_disabled_marker());
    assert(case_marker@ == case_sensitive_marker());
    let disabled = prefix_at(cs.as_slice(), 0, disabled_marker.as_slice());
    let c1 = if disabled { strip_prefix_all(cs.as_slice(), disabled_marker.as_slice()) } else { cs };
    assert(c1@.skip(0) =~= c1@);
    let case_sensitive = prefix_at(c1.as_slice(), 0, case_marker.as_slice());
    let c2 = if case_sensitive { strip_prefix_all(c1.as_slice(), case_marker.as_slice()) } else { c1 };
    let text = string_from_chars(c2.as_slice());
    let (key, min, max) = parse_duration_prefix(text.as_str());
    (disabled, case_sensitive, key, min, max)
}

/// The keyword field written for a search condition.
fn encode_and_key_text(v: &SearchKeyInfo) -> (s: String)
    ensures
        s@ == encode_and_key(v.deep_view()),
{
    let code: u32 = ((v.chk_duration_min as u32) * 10000 + (v.chk_duration_max as u32)) % 100000000;
    let mut cs: Vec<char> = Vec::new();
    let ghost m = v.deep_view();
    if v.key_disabled {
        let mut marker = vec!['^', '!', '{', '9', '9', '9', '}'];
        cs.append(&mut marker);
    }
    let ghost a = cs@;
    assert(a =~= if m.key_disabled { key_disabled_marker() } else { Seq::empty() });
    if v.case_sensitive {
        let mut marker = vec!['C', '!', '{', '9', '9', '9', '}'];
        cs.append(&mut marker);
    }
    let ghost b = cs@;
    assert(b =~= a + if m.case_sensitive { case_sensitive_marker() } else { Seq::empty() });
    if code > 0 {
        let mut head = vec!['D', '!', '{', '1'];
        cs.append(&mut head);
        let divisors: Vec<u32> = vec![10000000, 1000000, 100000, 10000, 1000, 100, 10, 1];
        let ghost before = cs@;
        proof { reveal_with_fuel(pow10, 8); }
        let mut i: usize = 0;
        while i < 8
            invariant
                i <= 8,
                divisors@ == seq![10000000u32, 1000000, 100000, 10000, 1000, 100, 10, 1],
                forall|j: int| 0 <= j < 8 ==> divisors@[j] == pow10((7 - j) as nat),
                code < 100000000,
                cs@ == before + pad8(code as nat).take(i as int),
            decreases 8 - i,
        {
            let digit = (code / divisors[i]) % 10;
            cs.push(((48u8 + digit as u8) as char));
            i = i + 1;
            assert(cs@ =~= before + pad8(code as nat).take(i as int));
        }
        cs.push('}');
        assert(pad8(code as nat).take(8) =~= pad8(code as nat));
    }
    let ghost c = cs@;
    assert(c =~= b + (if duration_code(m.chk_duration_min, m.chk_duration_max) > 0 {
        seq!['D', '!', '{', '1'] + pad8(duration_code(m.chk_duration_min, m.chk_duration_max)) + seq!['}']
    } else {
        Seq::empty()
    }));
    let mut key = chars_of(v.and_key.as_str());
    cs.append(&mut key);
    string_from_chars(cs.as_slice())
}

/// Reads the fields of a `SearchKeyInfo` from a struct body; the keyword field carries the
/// disabled and case-sensitive markers and the duration range, and a recording-check day of
/// 40000 or more also says that the recorded-file lookup ignores the service.
#[verifier::opaque]
pub open spec fn p_search_key_info_body(b0: Seq<u8>) -> Option<SearchKeyInfoModel> {
    match p_string(b0) {
        None => None,
        Some((raw_key, b1)) => match p_string(b1) {
            None => None,
            Some((not_key, b2)) => match p_i32(b2) {
                None => None,
                Some((reg_exp, b3)) => match p_i32(b3) {
                    None => None,
                    Some((title_only, b4)) => match p_vector::<ContentData>(b4) {
                        None => None,
                        Some((content_list, b5)) => match p_vector::<SearchDateInfo>(b5) {
                            None => None,
                            Some((date_list, b6)) => match p_vector::<i64>(b6) {
                                None => None,
                                Some((service_list, b7)) => match p_vector::<u16>(b7) {
                                    None => None,
                                    Some((video_list, b8)) => match p_vector::<u16>(b8) {
                                        None => None,
                                        Some((audio_list, b9)) => match p_u8(b9) {
                                            None => None,
                                            Some((aimai, b10)) => match p_u8(b10) {
                                                None => None,
                                                Some((not_contet, b11)) => match p_u8(b11) {
                                                    None => None,
                                                    Some((not_date, b12)) => match p_u8(b12) {
                                                        None => None,
                                                        Some((free_ca_flag, b13)) => match p_u8(b13) {
                                                            None => None,
                                                            Some((chk_rec_end, b14)) => match p_u16(b14) {
                                                                None => None,
                                                                Some((chk_rec_day, _)) => {
                                                                    let k = decode_and_key(raw_key);
                                                                    Some(SearchKeyInfoModel {
                                                                        and_key: k.2,
                                                                        not_key,
                                                                        key_disabled: k.0,
                                                                        case_sensitive: k.1,
                                                                        reg_exp_flag: reg_exp != 0,
                                                                        title_only_flag: title_only != 0,
                                                                        content_list,
                                                                        date_list,
                                                                        service_list,
                                                                        video_list,
                                                                        audio_list,
                                                                        aimai_flag: aimai != 0,
                                                                        not_contet_flag: not_contet != 0,
                                                                        not_date_flag: not_date != 0,
                                                                        free_ca_flag,
                                                                        chk_rec_end: chk_rec_end != 0,
                                                                        chk_rec_day: if chk_rec_day >= 40000 {
                                                                            (chk_rec_day % 10000) as u16
                                                                        } else {
                                                                            chk_rec_day
                                                                        },
                                                                        chk_rec_no_service: chk_rec_day >= 40000,
                                                                        chk_duration_min: k.3,
                                                                        chk_duration_max: k.4,
                                                                    })
                                                                },
                                                            },
                                                        },
                                                    },
                                                },
                                            },
                                        },
                                    },
                                },
                            },
                        },
                    },
                },
            },
        },
    }
}

impl WireRead for SearchKeyInfo {
    open spec fn parse(s: Seq<u8>) -> Option<(SearchKeyInfoModel, Seq<u8>)> {
        match p_frame(s) {
            None => None,
            Some((body, rest)) => match p_search_key_info_body(body) {
                None => None,
                Some(m) => Some((m, rest)),
            },
        }
    }

    fn read_from(r: &mut Reader<'_>) -> (res: Result<SearchKeyInfo, EdcbError>) {
        reveal(p_search_key_info_body);
        let mut c = r.read_struct()?;
        let raw_key = c.read_string()?;
        let (key_disabled, case_sensitive, and_key, chk_duration_min, chk_duration_max) = decode_and_key_text(
            raw_key.as_str(),
        );
        let not_key = c.read_string()?;
        let reg_exp_flag = c.read_i32()? != 0;
        let title_only_flag = c.read_i32()? != 0;
        let content_list = c.read_vector::<ContentData>()?;
        let date_list = c.read_vector::<SearchDateInfo>()?;
        let service_list = c.read_vector::<i64>()?;
        let video_list = c.read_vector::<u16>()?;
        let audio_list = c.read_vector::<u16>()?;
        let aimai_flag = c.read_u8()? != 0;
        let not_contet_flag = c.read_u8()? != 0;
        let not_date_flag = c.read_u8()? != 0;
        let free_ca_flag = c.read_u8()?;
        let chk_rec_end = c.read_u8()? != 0;
        let chk_rec_day_raw = c.read_u16()?;
        Ok(SearchKeyInfo {
            and_key,
            not_key,
            key_disabled,
            case_sensitive,
            reg_exp_flag,
            title_only_flag,
            content_list,
            date_list,
            service_list,
            video_list,
            audio_list,
            aimai_flag,
            not_contet_flag,
            not_date_flag,
            free_ca_flag,
            chk_rec_end,
            chk_rec_day: if chk_rec_day_raw >= 40000 { chk_rec_day_raw % 10000 } else { chk_rec_day_raw },
            chk_rec_no_service: chk_rec_day_raw >= 40000,
            chk_duration_min,
            chk_duration_max,
        })
    }
}

/// The struct body written for a `SearchKeyInfo` (the recording-check fields are not written).
#[verifier::opaque]
pub open spec fn s_search_key_info_body(m: SearchKeyInfoModel) -> Seq<u8> {
    s_string(encode_and_key(m)) + s_string(m.not_key) + lei32(if m.reg_exp_flag { 1i32 } else { 0i32 })
        + lei32(if m.title_only_flag { 1i32 } else { 0i32 }) + vector_wire::<ContentData>(m.content_list)
        + vector_wire::<SearchDateInfo>(m.date_list) + vector_wire::<i64>(m.service_list)
        + vector_wire::<u16>(m.video_list) + vector_wire::<u16>(m.audio_list) + seq![
        if m.aimai_flag { 1u8 } else { 0u8 },
    ] + seq![if m.not_contet_flag { 1u8 } else { 0u8 }] + seq![if m.not_date_flag { 1u8 } else { 0u8 }]
        + seq![m.free_ca_flag]
}

impl WireWrite for SearchKeyInfo {
    open spec fn wire(m: SearchKeyInfoModel) -> Seq<u8> {
        s_frame(s_search_key_info_body(m))
    }

    open spec fn writable(m: SearchKeyInfoModel) -> bool {
        true
    }

    proof fn lemma_wire_nonempty(m: SearchKeyInfoModel) {
    }

    #[verifier::rlimit(80)]
    fn write_to(&self, w: &mut Writer) {
        reveal(s_search_key_info_body);
        let ghost prefix = w@;
        let ghost m = self.deep_view();
        let and_key = encode_and_key_text(self);
        let pos = w.begin_struct();
        let ghost pre = w@;
        w.write_string(and_key.as_str());
        w.write_string(self.not_key.as_str());
        w.write_i32(if self.reg_exp_flag { 1 } else { 0 });
        w.write_i32(if self.title_only_flag { 1 } else { 0 });
        let contents = self.content_list.as_slice();
        assert(contents.deep_view() =~= self.content_list.deep_view());
        w.write_vector(contents);
        let dates = self.date_list.as_slice();
        assert(dates.deep_view() =~= self.date_list.deep_view());
        w.write_vector(dates);
        let services = self.service_list.as_slice();
        assert(services.deep_view() =~= self.service_list.deep_view());
        w.write_vector(services);
        let videos = self.video_list.as_slice();
        assert(videos.deep_view() =~= self.video_list.deep_view());
        w.write_vector(videos);
        let audios = self.audio_list.as_slice();
        assert(audios.deep_view() =~= self.audio_list.deep_view());
        w.write_vector(audios);
        w.write_u8(if self.aimai_flag { 1 } else { 0 });
        w.write_u8(if self.not_contet_flag { 1 } else { 0 });
        w.write_u8(if self.not_date_flag { 1 } else { 0 });
        w.write_u8(self.free_ca_flag);
        assert(w@ =~= pre + s_search_key_info_body(m));
        w.end_struct(pos, Ghost(prefix), Ghost(s_search_key_info_body(m)));
    }
}

} // verus!
