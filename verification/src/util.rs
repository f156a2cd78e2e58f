use vstd::prelude::*;

use crate::datetime::DateTime;

use crate::text::{
    chars_of, copy_range, eq_ignore_ascii_case, eq_ignore_ascii_case_chars, find_char,
    find_char_from, lemma_find_char, lines_chars, lines_of, parse_i32, parse_i32_spec,
    parse_unsigned, parse_unsigned_spec, split_chars, split_on, string_from_chars, trim_chars,
    trim_seq,
};

verus! {

/// One row of `ChSet5.txt`: a service and its flags.
#[derive(Debug, Clone, PartialEq, Eq)]
pub struct ChSet5Item {
    pub service_name: String,
    pub network_name: String,
    pub onid: u16,
    pub tsid: u16,
    pub sid: u16,
    pub service_type: u8,
    pub partial_flag: bool,
    pub epg_cap_flag: bool,
    pub search_flag: bool,
}

/// What a `ChSet5Item` holds, with strings as characters.
pub struct ChSet5ItemModel {
    pub service_name: Seq<char>,
    pub network_name: Seq<char>,
    pub onid: u16,
    pub tsid: u16,
    pub sid: u16,
    pub service_type: u8,
    pub partial_flag: bool,
    pub epg_cap_flag: bool,
    pub search_flag: bool,
}

impl DeepView for ChSet5Item {
    type V = ChSet5ItemModel;

    open spec fn deep_view(&self) -> ChSet5ItemModel {
        ChSet5ItemModel {
            service_name: self.service_name@,
            network_name: self.network_name@,
            onid: self.onid,
            tsid: self.tsid,
            sid: self.sid,
            service_type: self.service_type,
            partial_flag: self.partial_flag,
            epg_cap_flag: self.epg_cap_flag,
            search_flag: self.search_flag,
        }
    }
}

/// The row a line of `ChSet5.txt` gives: at least nine tab-separated fields, of which the
/// third to fifth are `u16`, the sixth a `u8` and the seventh to ninth `i32` flags (non-zero
/// for set); `None` where the line is no such row.
pub open spec fn ch_set5_row(line: Seq<char>) -> Option<ChSet5ItemModel> {
    let f = split_on(line, '\t');
    if f.len() < 9 {
        None
    } else {
        match (
            parse_unsigned_spec(f[2], 65535),
            parse_unsigned_spec(f[3], 65535),
            parse_unsigned_spec(f[4], 65535),
            parse_unsigned_spec(f[5], 255),
            parse_i32_spec(f[6]),
            parse_i32_spec(f[7]),
            parse_i32_spec(f[8]),
        ) {
            (Some(onid), Some(tsid), Some(sid), Some(st), Some(p), Some(e), Some(s)) => Some(
                ChSet5ItemModel {
                    service_name: f[0],
                    network_name: f[1],
                    onid: onid as u16,
                    tsid: tsid as u16,
                    sid: sid as u16,
                    service_type: st as u8,
                    partial_flag: p != 0,
                    epg_cap_flag: e != 0,
                    search_flag: s != 0,
                },
            ),
            _ => None,
        }
    }
}

/// The rows of the lines that are rows, in order.
pub open spec fn ch_set5_rows(lines: Seq<Seq<char>>) -> Seq<ChSet5ItemModel>
    decreases lines.len(),
{
    if lines.len() == 0 {
        Seq::empty()
    } else {
        let before = ch_set5_rows(lines.drop_last());
        match ch_set5_row(lines.last()) {
            Some(r) => before.push(r),
            None => before,
        }
    }
}

fn ch_set5_row_exec(line: &Vec<char>) -> (r: Option<ChSet5Item>)
    ensures
        match ch_set5_row(line@) {
            Some(m) => r matches Some(item) && item.deep_view() == m,
            None => r is None,
        },
{
    let f = split_chars(line.as_slice(), '\t');
    let ghost fs = f.deep_view();
    if f.len() < 9 {
        return None;
    }
    proof {
        assert forall|i: int| 0 <= i < 9 implies f@[i]@ == fs[i] by {
            assert(f@[i]@ =~= fs[i]);
        }
    }
    let onid = parse_unsigned(f[2].as_slice(), 65535);
    let tsid = parse_unsigned(f[3].as_slice(), 65535);
    let sid = parse_unsigned(f[4].as_slice(), 65535);
    let st = parse_unsigned(f[5].as_slice(), 255);
    let p = parse_i32(f[6].as_slice());
    let e = parse_i32(f[7].as_slice());
    let s = parse_i32(f[8].as_slice());
    match (onid, tsid, sid, st, p, e, s) {
        (Some(onid), Some(tsid), Some(sid), Some(st), Some(p), Some(e), Some(s)) => Some(
            ChSet5Item {
                service_name: string_from_chars(f[0].as_slice()),
                network_name: string_from_chars(f[1].as_slice()),
                onid: onid as u16,
                tsid: tsid as u16,
                sid: sid as u16,
                service_type: st as u8,
                partial_flag: p != 0,
                epg_cap_flag: e != 0,
                search_flag: s != 0,
            },
        ),
        _ => None,
    }
}

/// Reads the rows of `ChSet5.txt`; lines that are no rows are left out.
pub fn parse_ch_set5(input: &str) -> (r: Vec<ChSet5Item>)
    ensures
        r.deep_view() == ch_set5_rows(lines_of(input@)),
{
    let cs = chars_of(input);
    let lines = lines_chars(cs.as_slice());
    let ghost ls = lines.deep_view();
    let mut out: Vec<ChSet5Item> = Vec::new();
    for i in 0..lines.len()
        invariant
            ls == lines.deep_view(),
            out.deep_view() == ch_set5_rows(ls.take(i as int)),
    {
        assert(ls.take(i + 1).drop_last() =~= ls.take(i as int));
        assert(lines@[i as int]@ =~= ls[i as int]);
        let ghost before = out.deep_view();
        match ch_set5_row_exec(&lines[i]) {
            Some(item) => {
                out.push(item);
                assert(out.deep_view() =~= before.push(ch_set5_row(ls[i as int])->0));
            },
            None => {},
        }
    }
    assert(ls.take(lines.len() as int) =~= ls);
    out
}

/// The upper-case hexadecimal digit of `d`.
pub open spec fn hex_char(d: nat) -> char {
    if d < 10 {
        (('0' as u32) + d) as char
    } else {
        (('A' as u32) + d - 10) as char
    }
}

/// `v` in upper-case hexadecimal, with leading zeros up to `width` digits.
pub open spec fn hex_text(v: nat, width: nat) -> Seq<char>
    decreases v + width,
{
    if v < 16 && width <= 1 {
        seq![hex_char(v)]
    } else {
        hex_text(v / 16, if width > 0 { (width - 1) as nat } else { 0 }) + seq![hex_char(v % 16)]
    }
}

/// `v` in decimal, with leading zeros up to `width` digits.
pub open spec fn decimal_text(v: nat, width: nat) -> Seq<char>
    decreases v + width,
{
    if v < 10 && width <= 1 {
        seq![(('0' as u32) + v) as char]
    } else {
        decimal_text(v / 10, if width > 0 { (width - 1) as nat } else { 0 }) + seq![
            (('0' as u32) + v % 10) as char
        ]
    }
}

fn push_hex(out: &mut Vec<char>, v: u64, width: u64)
    requires
        width <= 64,
    ensures
        final(out)@ == old(out)@ + hex_text(v as nat, width as nat),
    decreases v + width,
{
    if v < 16 && width <= 1 {
    } else {
        push_hex(out, v / 16, if width > 0 { width - 1 } else { 0 });
    }
    let d = v % 16;
    let c = if d < 10 {
        ((48 + d) as u8) as char
    } else {
        ((55 + d) as u8) as char
    };
    out.push(c);
    assert(final(out)@ =~= old(out)@ + hex_text(v as nat, width as nat));
}

fn push_decimal_width(out: &mut Vec<char>, v: u64, width: u64)
    requires
        width <= 64,
    ensures
        final(out)@ == old(out)@ + decimal_text(v as nat, width as nat),
    decreases v + width,
{
    if v < 10 && width <= 1 {
    } else {
        push_decimal_width(out, v / 10, if width > 0 { width - 1 } else { 0 });
    }
    let d = (v % 10) as u8;
    out.push((48u8 + d) as char);
    assert(final(out)@ =~= old(out)@ + decimal_text(v as nat, width as nat));
}

/// The key of a service in `LogoData.ini`: `onid` and `sid` in four hexadecimal digits each.
pub open spec fn logo_ini_key(onid: u16, sid: u16) -> Seq<char> {
    hex_text(onid as nat, 4) + hex_text(sid as nat, 4)
}

/// The logo id of the first line `key=value` whose key, without surrounding white space, is
/// `target` up to ASCII case: the value read as an `i32` after trimming, if it is one.
pub open spec fn logo_id_in(lines: Seq<Seq<char>>, target: Seq<char>) -> Option<i32>
    decreases lines.len(),
{
    if lines.len() == 0 {
        None
    } else {
        let line = lines[0];
        match find_char(line, '=') {
            Some(p) => if 0 <= p < line.len() && eq_ignore_ascii_case(trim_seq(line.take(p)), target) {
                match parse_i32_spec(trim_seq(line.skip(p + 1))) {
                    Some(v) => Some(v as i32),
                    None => None,
                }
            } else {
                logo_id_in(lines.drop_first(), target)
            },
            None => logo_id_in(lines.drop_first(), target),
        }
    }
}

/// Looks up the logo id of a service in the text of `LogoData.ini`.
pub fn get_logo_id_from_logo_data_ini(input: &str, onid: u16, sid: u16) -> (r: Option<i32>)
    ensures
        r == logo_id_in(lines_of(input@), logo_ini_key(onid, sid)),
{
    let mut target: Vec<char> = Vec::new();
    push_hex(&mut target, onid as u64, 4);
    push_hex(&mut target, sid as u64, 4);
    assert(target@ =~= logo_ini_key(onid, sid));
    let cs = chars_of(input);
    let lines = lines_chars(cs.as_slice());
    let ghost ls = lines.deep_view();
    let n = lines.len();
    let mut i: usize = 0;
    assert(ls.skip(0) =~= ls);
    while i < n
        invariant
            n == ls.len(),
            i <= n,
            ls == lines.deep_view(),
            ls == lines_of(input@),
            target@ == logo_ini_key(onid, sid),
            logo_id_in(ls, target@) == logo_id_in(ls.skip(i as int), target@),
        decreases n - i,
    {
        let line = &lines[i];
        assert(line@ =~= ls[i as int]);
        assert(ls.skip(i as int)[0] == ls[i as int]);
        assert(ls.skip(i as int).drop_first() =~= ls.skip(i + 1));
        proof {
            lemma_find_char(line@, '=');
            assert(line@.skip(0) =~= line@);
        }
        match find_char_from(line.as_slice(), 0, '=') {
            Some(p) => {
                assert(find_char(line@, '=') == Some(p as int));
                assert(p < line.len());
                let key = copy_range(line.as_slice(), 0, p);
                let key_trimmed = trim_chars(key.as_slice());
                assert(key@ =~= line@.take(p as int));
                if eq_ignore_ascii_case_chars(key_trimmed.as_slice(), target.as_slice()) {
                    let value = copy_range(line.as_slice(), p + 1, line.len());
                    assert(value@ =~= line@.skip(p + 1));
                    let value_trimmed = trim_chars(value.as_slice());
                    return parse_i32(value_trimmed.as_slice());
                }
            },
            None => {},
        }
        i = i + 1;
    }
    assert(ls.skip(n as int) =~= Seq::<Seq<char>>::empty());
    None
}


/// The number of bytes of the UTF-8 encoding of `c`.
pub open spec fn utf8_len(c: char) -> int {
    let v = c as u32;
    if v < 0x80 {
        1
    } else if v < 0x800 {
        2
    } else if v < 0x10000 {
        3
    } else {
        4
    }
}

/// The number of bytes of the UTF-8 encoding of `s`.
pub open spec fn bytes_len(s: Seq<char>) -> int
    decreases s.len(),
{
    if s.len() == 0 {
        0
    } else {
        utf8_len(s[0]) + bytes_len(s.drop_first())
    }
}

/// The number of characters whose encoding takes up the first `b` bytes of `s`, if byte `b`
/// starts a character (or ends `s`).
pub open spec fn char_at_byte(s: Seq<char>, b: int) -> Option<int>
    decreases s.len(),
{
    if b == 0 {
        Some(0)
    } else if s.len() == 0 || b < 0 {
        None
    } else {
        match char_at_byte(s.drop_first(), b - utf8_len(s[0])) {
            Some(k) => Some(k + 1),
            None => None,
        }
    }
}

/// What follows the `n`-th space of `line`, as the last field of `splitn(n + 1, ' ')`.
pub open spec fn after_spaces(line: Seq<char>, n: nat) -> Option<Seq<char>>
    decreases n,
{
    if n == 0 {
        Some(line)
    } else {
        match find_char(line, ' ') {
            Some(p) => if 0 <= p < line.len() {
                after_spaces(line.skip(p + 1), (n - 1) as nat)
            } else {
                None
            },
            None => None,
        }
    }
}

/// Whether a file name is the logo: at least 16 bytes, bytes 0 to 9 equal to `prefix` up to
/// ASCII case and bytes 12 to 16 equal to `suffix`. `None` where a byte range does not fall on
/// character boundaries, which the byte slicing of the names does not allow.
pub open spec fn logo_name_check(name: Seq<char>, prefix: Seq<char>, suffix: Seq<char>) -> Option<bool> {
    if bytes_len(name) < 16 {
        Some(false)
    } else {
        match char_at_byte(name, 9) {
            None => None,
            Some(k9) => if !eq_ignore_ascii_case(name.take(k9), prefix) {
                Some(false)
            } else {
                match (char_at_byte(name, 12), char_at_byte(name, 16)) {
                    (Some(a), Some(b)) => Some(name.subrange(a, b) == suffix),
                    _ => None,
                }
            },
        }
    }
}

/// The name of the first logo among the lines of a directory index, each four
/// space-separated fields with the file name last. `None` where a name is checked whose byte
/// ranges do not fall on character boundaries.
pub open spec fn logo_file_in(lines: Seq<Seq<char>>, prefix: Seq<char>, suffix: Seq<char>) -> Option<
    Option<Seq<char>>,
>
    decreases lines.len(),
{
    if lines.len() == 0 {
        Some(None)
    } else {
        match after_spaces(lines[0], 3) {
            None => logo_file_in(lines.drop_first(), prefix, suffix),
            Some(name) => match logo_name_check(name, prefix, suffix) {
                None => None,
                Some(true) => Some(Some(name)),
                Some(false) => logo_file_in(lines.drop_first(), prefix, suffix),
            },
        }
    }
}

/// The start of a logo file name: the network id in four and the logo id in at least three
/// hexadecimal digits, each followed by `_`.
pub open spec fn logo_file_prefix(onid: u16, logo_id: u16) -> Seq<char> {
    hex_text(onid as nat, 4) + seq!['_'] + hex_text(logo_id as nat, 3) + seq!['_']
}

/// The part of a logo file name that gives its type: `_`, the type in at least two decimal
/// digits, `.`.
pub open spec fn logo_file_type(logo_type: u8) -> Seq<char> {
    seq!['_'] + decimal_text(logo_type as nat, 2) + seq!['.']
}

fn utf8_len_of(c: char) -> (n: usize)
    ensures
        n == utf8_len(c),
{
    let v = c as u32;
    if v < 0x80 {
        1
    } else if v < 0x800 {
        2
    } else if v < 0x10000 {
        3
    } else {
        4
    }
}

/// How many characters make up the first `b` bytes of `cs`, if byte `b` starts a character.
fn char_index_at_byte(cs: &[char], b: usize) -> (r: Option<usize>)
    ensures
        match char_at_byte(cs@, b as int) {
            Some(k) => r matches Some(x) && x == k,
            None => r is None,
        },
{
    let n = cs.len();
    let mut k: usize = 0;
    let mut off: usize = 0;
    assert(cs@.skip(0) =~= cs@);
    while k < n && off < b
        invariant
            n == cs@.len(),
            k <= n,
            off <= b,
            char_at_byte(cs@, b as int) == match char_at_byte(cs@.skip(k as int), b - off) {
                Some(j) => Some(j + k),
                None => None,
            },
        decreases n - k,
    {
        assert(cs@.skip(k as int).drop_first() =~= cs@.skip(k + 1));
        assert(cs@.skip(k as int)[0] == cs@[k as int]);
        let l = utf8_len_of(cs[k]);
        if l > b - off {
            assert(char_at_byte(cs@.skip(k + 1), b - off - l) is None);
            return None;
        }
        off = off + l;
        k = k + 1;
    }
    if off == b {
        Some(k)
    } else {
        assert(cs@.skip(k as int).len() == 0);
        None
    }
}

/// Whether the encoding of `cs` takes at least `b` bytes.
fn bytes_at_least(cs: &[char], b: usize) -> (r: bool)
    ensures
        r == (bytes_len(cs@) >= b),
{
    let n = cs.len();
    let mut k: usize = 0;
    let mut off: usize = 0;
    assert(cs@.skip(0) =~= cs@);
    while k < n && off < b
        invariant
            n == cs@.len(),
            k <= n,
            off <= b,
            bytes_len(cs@) == off + bytes_len(cs@.skip(k as int)),
        decreases n - k,
    {
        assert(cs@.skip(k as int).drop_first() =~= cs@.skip(k + 1));
        assert(cs@.skip(k as int)[0] == cs@[k as int]);
        let l = utf8_len_of(cs[k]);
        if l >= b - off {
            proof {
                lemma_bytes_len_nonneg(cs@.skip(k + 1));
            }
            return true;
        }
        off = off + l;
        k = k + 1;
    }
    proof {
        lemma_bytes_len_nonneg(cs@.skip(k as int));
    }
    off >= b
}

proof fn lemma_bytes_len_nonneg(s: Seq<char>)
    ensures
        bytes_len(s) >= 0,
    decreases s.len(),
{
    if s.len() > 0 {
        lemma_bytes_len_nonneg(s.drop_first());
    }
}

/// What follows the third space of `line`.
fn after_three_spaces(line: &Vec<char>) -> (r: Option<Vec<char>>)
    ensures
        match after_spaces(line@, 3) {
            Some(s) => r matches Some(v) && v@ == s,
            None => r is None,
        },
{
    let n = line.len();
    let mut pos: usize = 0;
    assert(line@.skip(0) =~= line@);
    for j in 0..3
        invariant
            n == line@.len(),
            pos <= line@.len(),
            after_spaces(line@, 3) == after_spaces(line@.skip(pos as int), (3 - j) as nat),
    {
        let ghost rest = line@.skip(pos as int);
        proof {
            lemma_find_char(rest, ' ');
        }
        match find_char_from(line.as_slice(), pos, ' ') {
            Some(p) => {
                assert(find_char(rest, ' ') == Some((p - pos) as int));
                assert(rest.skip(p - pos + 1) =~= line@.skip(p + 1));
                pos = p + 1;
            },
            None => {
                return None;
            },
        }
    }
    let v = copy_range(line.as_slice(), pos, n);
    assert(v@ =~= line@.skip(pos as int));
    Some(v)
}

/// Whether a file name is the logo; `None` where its byte ranges do not fall on character
/// boundaries.
fn logo_name_check_exec(name: &Vec<char>, prefix: &Vec<char>, suffix: &Vec<char>) -> (r: Option<bool>)
    ensures
        r == logo_name_check(name@, prefix@, suffix@),
{
    if !bytes_at_least(name.as_slice(), 16) {
        return Some(false);
    }
    let k9 = match char_index_at_byte(name.as_slice(), 9) {
        Some(k) => k,
        None => {
            return None;
        },
    };
    proof {
        lemma_char_at_byte_bound(name@, 9);
    }
    let head = copy_range(name.as_slice(), 0, k9);
    assert(head@ =~= name@.take(k9 as int));
    assert(char_at_byte(name@, 9) == Some(k9 as int));
    assert(bytes_len(name@) >= 16);
    if !eq_ignore_ascii_case_chars(head.as_slice(), prefix.as_slice()) {
        assert(!eq_ignore_ascii_case(name@.take(k9 as int), prefix@));
        return Some(false);
    }
    match (char_index_at_byte(name.as_slice(), 12), char_index_at_byte(name.as_slice(), 16)) {
        (Some(a), Some(b)) => {
            proof {
                lemma_char_at_byte_bound(name@, 12);
                lemma_char_at_byte_bound(name@, 16);
                lemma_char_at_byte_monotone(name@, 12, 16);
            }
            let part = copy_range(name.as_slice(), a, b);
            Some(same_chars(&part, suffix))
        },
        _ => None,
    }
}

/// Whether two character vectors hold the same characters.
pub fn same_chars(a: &Vec<char>, b: &Vec<char>) -> (r: bool)
    ensures
        r == (a@ == b@),
{
    if a.len() != b.len() {
        return false;
    }
    for i in 0..a.len()
        invariant
            a@.len() == b@.len(),
            forall|j: int| 0 <= j < i ==> a@[j] == b@[j],
    {
        if a[i] != b[i] {
            return false;
        }
    }
    assert(a@ =~= b@);
    true
}

proof fn lemma_char_at_byte_bound(s: Seq<char>, b: int)
    ensures
        char_at_byte(s, b) matches Some(k) ==> 0 <= k <= s.len(),
    decreases s.len(),
{
    if b != 0 && s.len() > 0 && b >= 0 {
        lemma_char_at_byte_bound(s.drop_first(), b - utf8_len(s[0]));
    }
}

proof fn lemma_char_at_byte_monotone(s: Seq<char>, b1: int, b2: int)
    requires
        0 <= b1 <= b2,
    ensures
        char_at_byte(s, b1) is Some && char_at_byte(s, b2) is Some ==> char_at_byte(s, b1)->0
            <= char_at_byte(s, b2)->0,
    decreases s.len(),
{
    lemma_char_at_byte_bound(s, b2);
    if b1 == 0 {
    } else if s.len() == 0 {
    } else {
        let l = utf8_len(s[0]);
        if b1 - l >= 0 {
            lemma_char_at_byte_monotone(s.drop_first(), b1 - l, b2 - l);
        }
    }
}


/// Looks up the file name of a logo in a directory index: the lines have four
/// space-separated fields, the file name last, and the logo's name starts with the network
/// id and logo id in hexadecimal (ASCII case ignored) and gives its type in bytes 12 to 16.
/// The names are compared by byte ranges, so a name checked must have character boundaries
/// at those bytes.
pub fn get_logo_file_name_from_directory_index(
    input: &str,
    onid: u16,
    logo_id: u16,
    logo_type: u8,
) -> (r: Option<String>)
    requires
        logo_file_in(lines_of(input@), logo_file_prefix(onid, logo_id), logo_file_type(logo_type)) is Some,
    ensures
        match logo_file_in(lines_of(input@), logo_file_prefix(onid, logo_id), logo_file_type(logo_type))->0 {
            Some(name) => r matches Some(s) && s@ == name,
            None => r is None,
        },
{
    let mut prefix: Vec<char> = Vec::new();
    push_hex(&mut prefix, onid as u64, 4);
    prefix.push('_');
    push_hex(&mut prefix, logo_id as u64, 3);
    prefix.push('_');
    assert(prefix@ =~= logo_file_prefix(onid, logo_id));
    let mut suffix: Vec<char> = Vec::new();
    suffix.push('_');
    push_decimal_width(&mut suffix, logo_type as u64, 2);
    suffix.push('.');
    assert(suffix@ =~= logo_file_type(logo_type));
    let cs = chars_of(input);
    let lines = lines_chars(cs.as_slice());
    let ghost ls = lines.deep_view();
    let n = lines.len();
    let mut i: usize = 0;
    assert(ls.skip(0) =~= ls);
    while i < n
        invariant
            n == ls.len(),
            i <= n,
            ls == lines.deep_view(),
            ls == lines_of(input@),
            prefix@ == logo_file_prefix(onid, logo_id),
            suffix@ == logo_file_type(logo_type),
            logo_file_in(ls, prefix@, suffix@) == logo_file_in(ls.skip(i as int), prefix@, suffix@),
            logo_file_in(ls, prefix@, suffix@) is Some,
        decreases n - i,
    {
        let line = &lines[i];
        assert(line@ =~= ls[i as int]);
        assert(ls.skip(i as int)[0] == ls[i as int]);
        assert(ls.skip(i as int).drop_first() =~= ls.skip(i + 1));
        match after_three_spaces(line) {
            Some(name) => match logo_name_check_exec(&name, &prefix, &suffix) {
                Some(true) => {
                    return Some(string_from_chars(name.as_slice()));
                },
                Some(false) => {},
                None => {
                    return None;
                },
            },
            None => {},
        }
        i = i + 1;
    }
    assert(ls.skip(n as int) =~= Seq::<Seq<char>>::empty());
    None
}


/// The text that encoding_rs's `UTF_16LE.decode` gives for `b`.
pub uninterp spec fn utf16le_decoding(b: Seq<u8>) -> Seq<char>;

/// The text that encoding_rs's `UTF_8.decode` gives for `b`.
pub uninterp spec fn utf8_decoding(b: Seq<u8>) -> Seq<char>;

/// The text that encoding_rs's `SHIFT_JIS.decode` gives for `b`.
pub uninterp spec fn shift_jis_decoding(b: Seq<u8>) -> Seq<char>;

/// Whether encoding_rs's `Encoding::for_label` knows the label.
pub uninterp spec fn label_known(label: Seq<char>) -> bool;

/// The text that `decode` of the encoding that encoding_rs's `Encoding::for_label` gives for a
/// known label gives for `b`.
pub uninterp spec fn label_decoding(label: Seq<char>, b: Seq<u8>) -> Seq<char>;

/// `UTF_16LE.decode` of encoding_rs (which first looks for a byte order mark); the contract
/// names its text.
#[verifier::external_body]
fn decode_utf16le(bytes: &[u8]) -> (s: String)
    ensures
        s@ == utf16le_decoding(bytes@),
{
    encoding_rs::UTF_16LE.decode(bytes).0.into_owned()
}

/// `UTF_8.decode` of encoding_rs; the contract names its text.
#[verifier::external_body]
fn decode_utf8(bytes: &[u8]) -> (s: String)
    ensures
        s@ == utf8_decoding(bytes@),
{
    encoding_rs::UTF_8.decode(bytes).0.into_owned()
}

/// `SHIFT_JIS.decode` of encoding_rs; the contract names its text.
#[verifier::external_body]
fn decode_shift_jis(bytes: &[u8]) -> (s: String)
    ensures
        s@ == shift_jis_decoding(bytes@),
{
    encoding_rs::SHIFT_JIS.decode(bytes).0.into_owned()
}

/// Whether `Encoding::for_label` of encoding_rs finds an encoding for the label; the contract
/// names the answer.
#[verifier::external_body]
fn encoding_label_known(label: &str) -> (b: bool)
    ensures
        b == label_known(label@),
{
    encoding_rs::Encoding::for_label(label.as_bytes()).is_some()
}

/// `decode` of the encoding that `Encoding::for_label` of encoding_rs finds for a known label;
/// the contract names the text.
#[verifier::external_body]
fn decode_labeled(label: &str, bytes: &[u8]) -> (s: String)
    requires
        label_known(label@),
    ensures
        s@ == label_decoding(label@, bytes@),
{
    encoding_rs::Encoding::for_label(label.as_bytes()).unwrap().decode(bytes).0.into_owned()
}

/// The text of a file's bytes: UTF-16LE after a `FF FE` mark, UTF-8 after an `EF BB BF` mark,
/// else the encoding the label names, Shift_JIS where it names none.
pub open spec fn converted_text(b: Seq<u8>, label: Seq<char>) -> Seq<char> {
    if b.len() == 0 {
        Seq::empty()
    } else if b.len() >= 2 && b[0] == 0xff && b[1] == 0xfe {
        utf16le_decoding(b.skip(2))
    } else if b.len() >= 3 && b[0] == 0xef && b[1] == 0xbb && b[2] == 0xbf {
        utf8_decoding(b.skip(3))
    } else if label_known(label) {
        label_decoding(label, b)
    } else {
        shift_jis_decoding(b)
    }
}

/// Decodes a file's bytes, by its byte order mark or else by `default_encoding`.
pub fn convert_bytes_to_string(buf: &[u8], default_encoding: &str) -> (s: String)
    ensures
        s@ == converted_text(buf@, default_encoding@),
{
    let n = buf.len();
    if n == 0 {
        return String::new();
    }
    if n >= 2 && buf[0] == 0xff && buf[1] == 0xfe {
        let rest = vstd::slice::slice_subrange(buf, 2, n);
        assert(rest@ =~= buf@.skip(2));
        decode_utf16le(rest)
    } else if n >= 3 && buf[0] == 0xef && buf[1] == 0xbb && buf[2] == 0xbf {
        let rest = vstd::slice::slice_subrange(buf, 3, n);
        assert(rest@ =~= buf@.skip(3));
        decode_utf8(rest)
    } else if encoding_label_known(default_encoding) {
        decode_labeled(default_encoding, buf)
    } else {
        decode_shift_jis(buf)
    }
}

/// The seconds from the UNIX epoch to a date and time: its days from 1970-01-01, its time of
/// day, less its offset from UTC.
pub open spec fn unix_seconds(t: DateTime) -> int {
    crate::datetime::days_from_civil(t.year as int, t.month as int, t.day as int) * 86400 + t.hour * 3600
        + t.minute * 60 + t.second - t.offset_seconds
}

/// The seconds from the UNIX epoch to a date and time, as chrono's `DateTime::timestamp`
/// gives them.
pub open spec fn timestamp_of(t: DateTime) -> i64 {
    unix_seconds(t) as i64
}

/// chrono's `DateTime::<FixedOffset>::timestamp` of the same date, time and offset: the
/// seconds from the UNIX epoch of the UTC instant.
#[verifier::external_body]
fn unix_timestamp(value: &DateTime) -> (ts: i64)
    requires
        value.wf(),
    ensures
        ts == timestamp_of(*value),
        ts as int == unix_seconds(*value),
{
    let offset = chrono::FixedOffset::east_opt(value.offset_seconds).unwrap();
    let date = chrono::NaiveDate::from_ymd_opt(value.year, value.month, value.day).unwrap();
    let naive = date.and_hms_nano_opt(value.hour, value.minute, value.second, value.nanosecond).unwrap();
    naive.and_local_timezone(offset).single().unwrap().timestamp()
}

/// A Windows `FILETIME` (100-nanosecond steps since 1601) of local time: the UNIX time `ts`
/// moved by the UTC offset, in 100-nanosecond steps, with the sub-second part, from 1601.
pub open spec fn file_time_value(ts: int, offset_seconds: int, nanosecond: int) -> int {
    (ts + offset_seconds) * 10_000_000 + nanosecond / 100 + 116444736000000000
}

/// Whether the computation of a `FILETIME` stays within `i64`.
pub open spec fn file_time_fits(ts: int, offset_seconds: int, nanosecond: int) -> bool {
    &&& i64::MIN <= (ts + offset_seconds) * 10_000_000
    &&& file_time_value(ts, offset_seconds, nanosecond) <= i64::MAX
}

/// The `FILETIME` of local time from a UNIX time and the date's offset and sub-second part.
pub fn file_time_from(ts: i64, value: &DateTime) -> (r: i64)
    requires
        value.wf(),
        file_time_fits(ts as int, value.offset_seconds as int, value.nanosecond as int),
    ensures
        r == file_time_value(ts as int, value.offset_seconds as int, value.nanosecond as int),
{
    let shifted = ts + value.offset_seconds as i64;
    let steps = shifted * 10_000_000;
    steps + (value.nanosecond / 100) as i64 + 116444736000000000
}

/// The `FILETIME` of a date and time taken as local time.
pub fn datetime_to_file_time(value: &DateTime) -> (r: i64)
    requires
        value.wf(),
        file_time_fits(timestamp_of(*value) as int, value.offset_seconds as int, value.nanosecond as int),
    ensures
        r == file_time_value(timestamp_of(*value) as int, value.offset_seconds as int, value.nanosecond as int),
{
    let ts = unix_timestamp(value);
    file_time_from(ts, value)
}

/// The `FILETIME` of a date and time taken as local time, or `None` where it does not fit in
/// an `i64`.
pub fn checked_datetime_to_file_time(value: &DateTime) -> (r: Option<i64>)
    requires
        value.wf(),
    ensures
        match r {
            Some(v) => file_time_fits(timestamp_of(*value) as int, value.offset_seconds as int, value.nanosecond as int)
                && v == file_time_value(timestamp_of(*value) as int, value.offset_seconds as int, value.nanosecond as int),
            None => !file_time_fits(timestamp_of(*value) as int, value.offset_seconds as int, value.nanosecond as int),
        },
{
    let ts = unix_timestamp(value);
    let shifted = ts as i128 + value.offset_seconds as i128;
    let steps = shifted * 10_000_000;
    let total = steps + (value.nanosecond / 100) as i128 + 116444736000000000;
    if steps < i64::MIN as i128 || total > i64::MAX as i128 {
        None
    } else {
        Some(datetime_to_file_time(value))
    }
}

} // verus!
