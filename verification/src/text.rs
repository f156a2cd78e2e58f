use vstd::prelude::*;

verus! {

broadcast use vstd::string::group_string_axioms;

/// The characters of `s`, in order.
pub fn chars_of(s: &str) -> (v: Vec<char>)
    ensures
        v@ == s@,
{
    let mut v: Vec<char> = Vec::new();
    for c in it: s.chars()
        invariant
            v@ == it.seq().take(it.index() as int),
            it.seq() == s@,
    {
        v.push(c);
    }
    v
}

/// Appends one character to a string: a call of `String::push`, whose documentation says
/// that it appends the given char to the end of the string.
#[verifier::external_body]
pub fn push_char(s: &mut String, c: char)
    ensures
        final(s)@ == old(s)@.push(c),
{
    s.push(c);
}

/// The string made of the characters of `cs`, in order.
pub fn string_from_chars(cs: &[char]) -> (s: String)
    ensures
        s@ == cs@,
{
    let mut s = String::new();
    let n = cs.len();
    let mut i: usize = 0;
    while i < n
        invariant
            n == cs@.len(),
            i <= n,
            s@ == cs@.take(i as int),
        decreases n - i,
    {
        push_char(&mut s, cs[i]);
        i = i + 1;
        assert(s@ =~= cs@.take(i as int));
    }
    assert(cs@.take(n as int) =~= cs@);
    s
}

/// Whether `v` is a Unicode scalar value, the values that a `char` can hold.
pub open spec fn is_scalar(v: u32) -> bool {
    v <= 0x10FFFF && !(0xD800 <= v && v <= 0xDFFF)
}

/// The char with a given scalar value: a call of `char::from_u32`, which the standard
/// library documents to return `None` exactly when the value is not a `char`.
#[verifier::external_body]
pub fn char_from_u32(v: u32) -> (r: Option<char>)
    ensures
        r is Some <==> is_scalar(v),
        r matches Some(c) ==> c as u32 == v && c == v as char,
{
    char::from_u32(v)
}

/// Whether `c` is an ASCII decimal digit.
pub open spec fn is_digit(c: char) -> bool {
    '0' <= c && c <= '9'
}

/// The value of a string of decimal digits.
pub open spec fn digits_value(ds: Seq<char>) -> nat
    decreases ds.len(),
{
    if ds.len() == 0 {
        0
    } else {
        digits_value(ds.drop_last()) * 10 + ((ds.last() as u32) - ('0' as u32)) as nat
    }
}

/// Ten to the power `k`.
pub open spec fn pow10(k: nat) -> nat
    decreases k,
{
    if k == 0 { 1 } else { 10 * pow10((k - 1) as nat) }
}

/// Position of the first `c` in `s`.
pub open spec fn find_char(s: Seq<char>, c: char) -> Option<int>
    decreases s.len(),
{
    if s.len() == 0 {
        None
    } else if s[0] == c {
        Some(0)
    } else {
        match find_char(s.drop_first(), c) {
            Some(i) => Some(i + 1),
            None => None,
        }
    }
}

pub proof fn lemma_find_char(s: Seq<char>, c: char)
    ensures
        find_char(s, c) matches Some(i) ==> 0 <= i < s.len() && s[i] == c && forall|j: int|
            0 <= j < i ==> s[j] != c,
        find_char(s, c) is None ==> forall|j: int| 0 <= j < s.len() ==> s[j] != c,
    decreases s.len(),
{
    if s.len() > 0 {
        lemma_find_char(s.drop_first(), c);
        if s[0] != c {
            assert forall|j: int| 1 <= j < s.len() implies s[j] == s.drop_first()[j - 1] by {}
        }
    }
}

/// The first `c` in `cs` at or after `from`.
pub fn find_char_from(cs: &[char], from: usize, c: char) -> (r: Option<usize>)
    requires
        from <= cs@.len(),
    ensures
        match find_char(cs@.skip(from as int), c) {
            None => r is None,
            Some(i) => r == Some((from + i) as usize),
        },
{
    let n = cs.len();
    let mut k = from;
    assert(cs@.skip(from as int).skip(0) =~= cs@.skip(from as int));
    while k < n
        invariant
            n == cs@.len(),
            from <= k <= n,
            find_char(cs@.skip(from as int), c) == match find_char(cs@.skip(k as int), c) {
                Some(i) => Some(i + (k - from)),
                None => None,
            },
        decreases n - k,
    {
        assert(cs@.skip(k as int).drop_first() =~= cs@.skip(k + 1));
        if cs[k] == c {
            return Some(k);
        }
        k = k + 1;
    }
    None
}

/// The characters of `cs` from `a` to `b`.
pub fn copy_range(cs: &[char], a: usize, b: usize) -> (r: Vec<char>)
    requires
        a <= b <= cs@.len(),
    ensures
        r@ == cs@.subrange(a as int, b as int),
{
    vstd::slice::slice_to_vec(&cs[a..b])
}

/// The pieces of `s` between occurrences of `c`, as `str::split` with a char gives them.
pub open spec fn split_on(s: Seq<char>, c: char) -> Seq<Seq<char>>
    decreases s.len(),
{
    match find_char(s, c) {
        None => seq![s],
        Some(i) => if 0 <= i < s.len() {
            seq![s.take(i)] + split_on(s.skip(i + 1), c)
        } else {
            seq![s]
        },
    }
}

/// Splits `cs` at every `c`.
pub fn split_chars(cs: &[char], c: char) -> (r: Vec<Vec<char>>)
    ensures
        r.deep_view() == split_on(cs@, c),
{
    let n = cs.len();
    let mut out: Vec<Vec<char>> = Vec::new();
    let mut start: usize = 0;
    assert(cs@.skip(0) =~= cs@);
    assert(out.deep_view() =~= Seq::<Seq<char>>::empty());
    loop
        invariant
            n == cs@.len(),
            start <= n,
            split_on(cs@, c) == out.deep_view() + split_on(cs@.skip(start as int), c),
        decreases n - start,
    {
        let ghost rest = cs@.skip(start as int);
        proof { lemma_find_char(rest, c); }
        match find_char_from(cs, start, c) {
            None => {
                let piece = copy_range(cs, start, n);
                let ghost before = out.deep_view();
                out.push(piece);
                assert(piece@ =~= rest);
                assert(piece.deep_view() =~= piece@);
                assert(out.deep_view() =~= before.push(piece@));
                assert(split_on(rest, c) == seq![rest]);
                assert(before + seq![rest] =~= before.push(rest));
                return out;
            },
            Some(i) => {
                let piece = copy_range(cs, start, i);
                let ghost before = out.deep_view();
                out.push(piece);
                assert(piece.deep_view() =~= piece@);
                assert(out.deep_view() =~= before.push(piece@));
                assert(rest.take(i - start) =~= piece@);
                assert(rest.skip(i - start + 1) =~= cs@.skip(i + 1));
                assert(before + (seq![piece@] + split_on(cs@.skip(i + 1), c)) =~= before.push(piece@) + split_on(cs@.skip(i + 1), c));
                start = i + 1;
            },
        }
    }
}

/// `l` without one trailing carriage return.
pub open spec fn strip_cr(l: Seq<char>) -> Seq<char> {
    if l.len() > 0 && l.last() == '\r' { l.drop_last() } else { l }
}

/// The lines of `s`, as `str::lines` gives them: split after each line feed, a line feed and a
/// carriage return before it removed, and no empty line after a final line feed.
pub open spec fn lines_of(s: Seq<char>) -> Seq<Seq<char>>
    decreases s.len(),
{
    if s.len() == 0 {
        Seq::empty()
    } else {
        match find_char(s, '\n') {
            None => seq![s],
            Some(i) => if 0 <= i < s.len() {
                seq![strip_cr(s.take(i))] + lines_of(s.skip(i + 1))
            } else {
                seq![s]
            },
        }
    }
}

/// The lines of `cs`.
pub fn lines_chars(cs: &[char]) -> (r: Vec<Vec<char>>)
    ensures
        r.deep_view() == lines_of(cs@),
{
    let n = cs.len();
    let mut out: Vec<Vec<char>> = Vec::new();
    let mut start: usize = 0;
    assert(cs@.skip(0) =~= cs@);
    assert(out.deep_view() =~= Seq::<Seq<char>>::empty());
    while start < n
        invariant
            n == cs@.len(),
            start <= n,
            lines_of(cs@) == out.deep_view() + lines_of(cs@.skip(start as int)),
        decreases n - start,
    {
        let ghost rest = cs@.skip(start as int);
        proof { lemma_find_char(rest, '\n'); }
        let ghost before = out.deep_view();
        match find_char_from(cs, start, '\n') {
            None => {
                let piece = copy_range(cs, start, n);
                out.push(piece);
                assert(piece@ =~= rest);
                assert(piece.deep_view() =~= piece@);
                assert(out.deep_view() =~= before.push(piece@));
                assert(before + seq![rest] =~= before.push(rest));
                assert(cs@.skip(n as int) =~= Seq::<char>::empty());
                assert(out.deep_view() + lines_of(cs@.skip(n as int)) =~= out.deep_view());
                start = n;
            },
            Some(i) => {
                let end = if i > start && cs[i - 1] == '\r' { i - 1 } else { i };
                let piece = copy_range(cs, start, end);
                out.push(piece);
                assert(piece@ =~= strip_cr(rest.take(i - start)));
                assert(piece.deep_view() =~= piece@);
                assert(out.deep_view() =~= before.push(piece@));
                assert(rest.skip(i - start + 1) =~= cs@.skip(i + 1));
                assert(before + (seq![piece@] + lines_of(cs@.skip(i + 1))) =~= before.push(piece@) + lines_of(cs@.skip(i + 1)));
                start = i + 1;
            },
        }
    }
    assert(cs@.skip(start as int) =~= Seq::<char>::empty());
    assert(out.deep_view() + Seq::<Seq<char>>::empty() =~= out.deep_view());
    out
}

/// Whether every character of `ds` is a decimal digit.
pub open spec fn all_digits(ds: Seq<char>) -> bool {
    forall|i: int| 0 <= i < ds.len() ==> is_digit(#[trigger] ds[i])
}

/// The digits of an unsigned decimal number, after an optional `+`.
pub open spec fn unsigned_body(cs: Seq<char>) -> Seq<char> {
    if cs.len() > 0 && cs[0] == '+' { cs.drop_first() } else { cs }
}

/// What `str::parse` gives for an unsigned integer type whose largest value is `max`: an
/// optional `+`, then one or more digits, of value at most `max`.
pub open spec fn parse_unsigned_spec(cs: Seq<char>, max: nat) -> Option<nat> {
    let ds = unsigned_body(cs);
    if ds.len() > 0 && all_digits(ds) && digits_value(ds) <= max {
        Some(digits_value(ds))
    } else {
        None
    }
}

/// What `str::parse::<i32>` gives: an optional sign, then one or more digits, in range.
pub open spec fn parse_i32_spec(cs: Seq<char>) -> Option<int> {
    if cs.len() > 0 && cs[0] == '-' {
        let ds = cs.drop_first();
        if ds.len() > 0 && all_digits(ds) && digits_value(ds) <= 2147483648 {
            Some(-(digits_value(ds) as int))
        } else {
            None
        }
    } else {
        match parse_unsigned_spec(cs, 2147483647) {
            Some(v) => Some(v as int),
            None => None,
        }
    }
}

proof fn lemma_digits_prefix(ds: Seq<char>, k: int)
    requires
        all_digits(ds),
        0 <= k <= ds.len(),
    ensures
        digits_value(ds.take(k)) <= digits_value(ds),
    decreases ds.len() - k,
{
    if k < ds.len() {
        lemma_digits_prefix(ds, k + 1);
        assert(ds.take(k + 1).drop_last() =~= ds.take(k));
    } else {
        assert(ds.take(k) =~= ds);
    }
}

/// Reads the digits `cs[from..]` as a number of at most `max`.
fn digits_up_to(cs: &[char], from: usize, max: u64) -> (r: Option<u64>)
    requires
        from <= cs@.len(),
    ensures
        ({
            let ds = cs@.skip(from as int);
            if ds.len() > 0 && all_digits(ds) && digits_value(ds) <= max {
                r == Some(digits_value(ds) as u64)
            } else {
                r is None
            }
        }),
{
    let n = cs.len();
    let ghost ds = cs@.skip(from as int);
    if n == from {
        return None;
    }
    let mut v: u64 = 0;
    let mut k = from;
    assert(ds.take(0) =~= Seq::<char>::empty());
    while k < n
        invariant
            n == cs@.len(),
            from <= k <= n,
            ds == cs@.skip(from as int),
            forall|j: int| 0 <= j < k - from ==> is_digit(#[trigger] ds[j]),
            v == digits_value(ds.take(k - from)),
            v <= max,
        decreases n - k,
    {
        let c = cs[k];
        if !('0' <= c && c <= '9') {
            assert(!is_digit(ds[k - from]));
            return None;
        }
        let d = (c as u32 - '0' as u32) as u64;
        assert(ds.take(k - from + 1).drop_last() =~= ds.take(k - from));
        if d > max || v > (max - d) / 10 {
            proof {
                assert(all_digits(ds) ==> digits_value(ds.take(k - from + 1)) > max) by (nonlinear_arith)
                    requires
                        d > max || v > (max - d) / 10,
                        digits_value(ds.take(k - from + 1)) == v * 10 + d,
                        d <= 9;
                if all_digits(ds) {
                    lemma_digits_prefix(ds, k - from + 1);
                }
            }
            return None;
        }
        assert(v * 10 + d <= max) by (nonlinear_arith)
            requires v <= (max - d) / 10, d <= max;
        v = v * 10 + d;
        k = k + 1;
    }
    assert(ds.take(n - from) =~= ds);
    Some(v)
}

/// Parses an unsigned decimal number of at most `max`, as `str::parse` does.
pub fn parse_unsigned(cs: &[char], max: u64) -> (r: Option<u64>)
    ensures
        match parse_unsigned_spec(cs@, max as nat) {
            Some(v) => r == Some(v as u64),
            None => r is None,
        },
{
    if cs.len() > 0 && cs[0] == '+' {
        assert(cs@.skip(1) =~= cs@.drop_first());
        digits_up_to(cs, 1, max)
    } else {
        assert(cs@.skip(0) =~= cs@);
        digits_up_to(cs, 0, max)
    }
}

/// Parses a decimal `i32`, as `str::parse::<i32>` does.
pub fn parse_i32(cs: &[char]) -> (r: Option<i32>)
    ensures
        match parse_i32_spec(cs@) {
            Some(v) => r == Some(v as i32),
            None => r is None,
        },
{
    if cs.len() > 0 && cs[0] == '-' {
        assert(cs@.skip(1) =~= cs@.drop_first());
        match digits_up_to(cs, 1, 2147483648) {
            Some(v) => Some((0 - (v as i64)) as i32),
            None => None,
        }
    } else {
        match parse_unsigned(cs, 2147483647) {
            Some(v) => Some(v as i32),
            None => None,
        }
    }
}

/// The character of a decimal digit.
pub open spec fn digit_char(d: nat) -> char {
    (('0' as u32) + d) as char
}

/// The decimal digits of `n`, without leading zeros.
pub open spec fn decimal(n: nat) -> Seq<char>
    decreases n,
{
    if n < 10 {
        seq![digit_char(n)]
    } else {
        decimal(n / 10).push(digit_char(n % 10))
    }
}

/// Appends the decimal digits of `n`.
pub fn push_decimal(out: &mut Vec<char>, n: u64)
    ensures
        final(out)@ == old(out)@ + decimal(n as nat),
    decreases n,
{
    if n >= 10 {
        push_decimal(out, n / 10);
    }
    let d = (n % 10) as u8;
    out.push((48u8 + d) as char);
    assert(out@ =~= old(out)@ + decimal(n as nat));
}

/// The decimal form of a signed number, with `-` before a negative one.
pub open spec fn signed_decimal(v: int) -> Seq<char> {
    if v < 0 {
        seq!['-'] + decimal((-v) as nat)
    } else {
        decimal(v as nat)
    }
}

/// Appends the decimal form of a signed number.
pub fn push_signed_decimal(out: &mut Vec<char>, v: i64)
    ensures
        final(out)@ == old(out)@ + signed_decimal(v as int),
{
    if v < 0 {
        out.push('-');
        let m: u64 = ((-(v + 1)) as u64) + 1;
        push_decimal(out, m);
        assert(final(out)@ =~= old(out)@ + signed_decimal(v as int));
    } else {
        push_decimal(out, v as u64);
    }
}

/// Appends the characters of `s`.
pub fn push_str(out: &mut Vec<char>, s: &str)
    ensures
        final(out)@ == old(out)@ + s@,
{
    let mut cs = chars_of(s);
    out.append(&mut cs);
}

/// Whether `needle` occurs in `hay`.
pub open spec fn contains_seq(hay: Seq<char>, needle: Seq<char>) -> bool {
    exists|i: int| 0 <= i && i + needle.len() <= hay.len() && #[trigger] hay.subrange(i, i + needle.len()) == needle
}

/// Whether `needle` occurs in `hay`.
pub fn contains_chars(hay: &[char], needle: &[char]) -> (b: bool)
    ensures
        b == contains_seq(hay@, needle@),
{
    let n = hay.len();
    let m = needle.len();
    if m > n {
        return false;
    }
    let mut i: usize = 0;
    while i <= n - m
        invariant
            n == hay@.len(),
            m == needle@.len(),
            m <= n,
            i <= n - m + 1,
            forall|k: int| 0 <= k < i ==> #[trigger] hay@.subrange(k, k + m) != needle@,
        decreases n - m + 1 - i,
    {
        let mut j: usize = 0;
        let mut same = true;
        while j < m
            invariant
                n == hay@.len(),
                m == needle@.len(),
                i + m <= n,
                j <= m,
                same <==> forall|k: int| 0 <= k < j ==> hay@[i + k] == needle@[k],
            decreases m - j,
        {
            if hay[i + j] != needle[j] {
                same = false;
            }
            j = j + 1;
        }
        if same {
            assert(hay@.subrange(i as int, i + m) =~= needle@);
            return true;
        }
        assert(hay@.subrange(i as int, i + m) != needle@) by {
            let k = choose|k: int| 0 <= k < m && hay@[i + k] != needle@[k];
            assert(hay@.subrange(i as int, i + m)[k] != needle@[k]);
        }
        i = i + 1;
    }
    assert forall|k: int| 0 <= k && k + m <= n implies #[trigger] hay@.subrange(k, k + m) != needle@ by {}
    false
}

/// Whether `c` has the Unicode `White_Space` property, as `char::is_whitespace` says.
pub open spec fn is_white_space(c: char) -> bool {
    let v = c as u32;
    (0x09 <= v && v <= 0x0D) || v == 0x20 || v == 0x85 || v == 0xA0 || v == 0x1680 || (0x2000 <= v && v
        <= 0x200A) || v == 0x2028 || v == 0x2029 || v == 0x202F || v == 0x205F || v == 0x3000
}

/// Whether `c` has the Unicode `White_Space` property.
pub fn is_white_space_char(c: char) -> (b: bool)
    ensures
        b == is_white_space(c),
{
    let v = c as u32;
    (0x09 <= v && v <= 0x0D) || v == 0x20 || v == 0x85 || v == 0xA0 || v == 0x1680 || (0x2000 <= v && v
        <= 0x200A) || v == 0x2028 || v == 0x2029 || v == 0x202F || v == 0x205F || v == 0x3000
}

/// `s` without leading white space, as `str::trim_start` gives it.
pub open spec fn trim_start_seq(s: Seq<char>) -> Seq<char>
    decreases s.len(),
{
    if s.len() > 0 && is_white_space(s[0]) { trim_start_seq(s.drop_first()) } else { s }
}

/// `s` without trailing white space, as `str::trim_end` gives it.
pub open spec fn trim_end_seq(s: Seq<char>) -> Seq<char>
    decreases s.len(),
{
    if s.len() > 0 && is_white_space(s.last()) { trim_end_seq(s.drop_last()) } else { s }
}

/// `s` without leading and trailing white space, as `str::trim` gives it.
pub open spec fn trim_seq(s: Seq<char>) -> Seq<char> {
    trim_end_seq(trim_start_seq(s))
}

/// `cs` without leading and trailing white space.
pub fn trim_chars(cs: &[char]) -> (r: Vec<char>)
    ensures
        r@ == trim_seq(cs@),
{
    let n = cs.len();
    let mut a: usize = 0;
    assert(cs@.skip(0) =~= cs@);
    while a < n && is_white_space_char(cs[a])
        invariant
            n == cs@.len(),
            a <= n,
            trim_start_seq(cs@) == trim_start_seq(cs@.skip(a as int)),
        decreases n - a,
    {
        assert(cs@.skip(a as int).drop_first() =~= cs@.skip(a + 1));
        a = a + 1;
    }
    assert(trim_start_seq(cs@.skip(a as int)) == cs@.skip(a as int));
    let mut b: usize = n;
    assert(cs@.subrange(a as int, n as int) =~= cs@.skip(a as int));
    while b > a && is_white_space_char(cs[b - 1])
        invariant
            n == cs@.len(),
            a <= b <= n,
            trim_seq(cs@) == trim_end_seq(cs@.subrange(a as int, b as int)),
        decreases b - a,
    {
        assert(cs@.subrange(a as int, b as int).drop_last() =~= cs@.subrange(a as int, b - 1));
        b = b - 1;
    }
    copy_range(cs, a, b)
}

/// `c` with ASCII upper-case letters made lower-case.
pub open spec fn ascii_lower(c: char) -> char {
    if 'A' <= c && c <= 'Z' { ((c as u32) + 32) as char } else { c }
}

/// Whether two strings are equal up to ASCII case, as `str::eq_ignore_ascii_case` says.
pub open spec fn eq_ignore_ascii_case(a: Seq<char>, b: Seq<char>) -> bool {
    a.len() == b.len() && forall|i: int| 0 <= i < a.len() ==> ascii_lower(#[trigger] a[i]) == ascii_lower(b[i])
}

fn ascii_lower_char(c: char) -> (r: char)
    ensures
        r == ascii_lower(c),
{
    if 'A' <= c && c <= 'Z' {
        ((c as u8) + 32) as char
    } else {
        c
    }
}

/// Whether two strings are equal up to ASCII case.
pub fn eq_ignore_ascii_case_chars(a: &[char], b: &[char]) -> (r: bool)
    ensures
        r == eq_ignore_ascii_case(a@, b@),
{
    if a.len() != b.len() {
        return false;
    }
    let n = a.len();
    let mut i: usize = 0;
    while i < n
        invariant
            n == a@.len(),
            n == b@.len(),
            i <= n,
            forall|j: int| 0 <= j < i ==> ascii_lower(#[trigger] a@[j]) == ascii_lower(b@[j]),
        decreases n - i,
    {
        if ascii_lower_char(a[i]) != ascii_lower_char(b[i]) {
            return false;
        }
        i = i + 1;
    }
    true
}

} // verus!
