use vstd::prelude::*;

use crate::text::{is_digit, push_str};

verus! {

/// The text of an integer parse error for an empty string.
pub open spec fn empty_integer_text() -> Seq<char> {
    "cannot parse integer from empty string"@
}

/// The text of an integer parse error for a character that is no digit.
pub open spec fn invalid_digit_text() -> Seq<char> {
    "invalid digit found in string"@
}

/// The text of an integer parse error for a number above the type's range.
pub open spec fn too_large_text() -> Seq<char> {
    "number too large to fit in target type"@
}

/// The text of an integer parse error for a number below the type's range.
pub open spec fn too_small_text() -> Seq<char> {
    "number too small to fit in target type"@
}

/// Reads the digits `ds[i..]` after the magnitude `acc` read so far, as `str::parse` does:
/// from left to right, a character that is no digit or a magnitude above `limit` ends the
/// reading with its error.
pub open spec fn digits_from(ds: Seq<char>, i: int, acc: nat, limit: nat, overflow: Seq<char>) -> Result<
    nat,
    Seq<char>,
>
    decreases ds.len() - i,
{
    if i < 0 || i >= ds.len() {
        Ok(acc)
    } else if !is_digit(ds[i]) {
        Err(invalid_digit_text())
    } else {
        let a2 = acc * 10 + ((ds[i] as u32) - ('0' as u32)) as nat;
        if a2 > limit {
            Err(overflow)
        } else {
            digits_from(ds, i + 1, a2, limit, overflow)
        }
    }
}

/// What `str::parse::<i64>` gives for `cs`: the number, or the text of its error.
pub open spec fn i64_parse(cs: Seq<char>) -> Result<int, Seq<char>> {
    if cs.len() == 0 {
        Err(empty_integer_text())
    } else if (cs[0] == '+' || cs[0] == '-') && cs.len() == 1 {
        Err(invalid_digit_text())
    } else if cs[0] == '-' {
        match digits_from(cs, 1, 0, 9223372036854775808, too_small_text()) {
            Ok(n) => Ok(-(n as int)),
            Err(m) => Err(m),
        }
    } else {
        let from: int = if cs[0] == '+' { 1 } else { 0 };
        match digits_from(cs, from, 0, 9223372036854775807, too_large_text()) {
            Ok(n) => Ok(n as int),
            Err(m) => Err(m),
        }
    }
}

/// What `str::parse::<u64>` gives for `cs`: the number, or the text of its error.
pub open spec fn u64_parse(cs: Seq<char>) -> Result<nat, Seq<char>> {
    if cs.len() == 0 {
        Err(empty_integer_text())
    } else if (cs[0] == '+' || cs[0] == '-') && cs.len() == 1 {
        Err(invalid_digit_text())
    } else {
        let from: int = if cs[0] == '+' { 1 } else { 0 };
        digits_from(cs, from, 0, 18446744073709551615, too_large_text())
    }
}

/// Reads the digits `cs[from..]` as `digits_from` does, the magnitude kept below `limit`.
fn digits_exec(cs: &[char], from: usize, limit: u128, overflow: &str) -> (r: Result<u128, String>)
    requires
        from <= cs@.len(),
        limit <= 18446744073709551615,
    ensures
        match digits_from(cs@, from as int, 0, limit as nat, overflow@) {
            Ok(n) => n <= limit && r == Ok::<u128, String>(n as u128),
            Err(m) => r matches Err(s) && s@ == m,
        },
        r matches Ok(v) ==> v <= limit,
{
    let n = cs.len();
    let mut i = from;
    let mut acc: u128 = 0;
    while i < n
        invariant
            from <= i <= n,
            n == cs@.len(),
            acc <= limit,
            limit <= 18446744073709551615,
            digits_from(cs@, from as int, 0, limit as nat, overflow@) == digits_from(
                cs@,
                i as int,
                acc as nat,
                limit as nat,
                overflow@,
            ),
        decreases n - i,
    {
        let c = cs[i];
        if !('0' <= c && c <= '9') {
            return Err(invalid_digit_text_exec());
        }
        let a2 = acc * 10 + ((c as u32) - ('0' as u32)) as u128;
        if a2 > limit {
            let mut out: Vec<char> = Vec::new();
            push_str(&mut out, overflow);
            return Err(crate::text::string_from_chars(out.as_slice()));
        }
        acc = a2;
        i = i + 1;
    }
    Ok(acc)
}

fn invalid_digit_text_exec() -> (s: String)
    ensures
        s@ == invalid_digit_text(),
{
    "invalid digit found in string".to_string()
}

/// Parses a signed 64-bit number as `str::parse::<i64>` does, with the text of its error.
pub fn parse_i64_text(cs: &[char]) -> (r: Result<i64, String>)
    ensures
        match i64_parse(cs@) {
            Ok(n) => r == Ok::<i64, String>(n as i64) && i64::MIN <= n <= i64::MAX,
            Err(m) => r matches Err(s) && s@ == m,
        },
{
    if cs.len() == 0 {
        return Err("cannot parse integer from empty string".to_string());
    }
    if (cs[0] == '+' || cs[0] == '-') && cs.len() == 1 {
        return Err(invalid_digit_text_exec());
    }
    if cs[0] == '-' {
        match digits_exec(cs, 1, 9223372036854775808, "number too small to fit in target type") {
            Ok(m) => {
                let v: i64 = if m == 9223372036854775808 {
                    i64::MIN
                } else {
                    -(m as i64)
                };
                Ok(v)
            },
            Err(e) => Err(e),
        }
    } else {
        let from: usize = if cs[0] == '+' { 1 } else { 0 };
        match digits_exec(cs, from, 9223372036854775807, "number too large to fit in target type") {
            Ok(m) => Ok(m as i64),
            Err(e) => Err(e),
        }
    }
}

/// Parses an unsigned 64-bit number as `str::parse::<u64>` does, with the text of its error.
pub fn parse_u64_text(cs: &[char]) -> (r: Result<u64, String>)
    ensures
        match u64_parse(cs@) {
            Ok(n) => r == Ok::<u64, String>(n as u64) && n <= u64::MAX,
            Err(m) => r matches Err(s) && s@ == m,
        },
{
    if cs.len() == 0 {
        return Err("cannot parse integer from empty string".to_string());
    }
    if (cs[0] == '+' || cs[0] == '-') && cs.len() == 1 {
        return Err(invalid_digit_text_exec());
    }
    let from: usize = if cs[0] == '+' { 1 } else { 0 };
    match digits_exec(cs, from, 18446744073709551615, "number too large to fit in target type") {
        Ok(m) => Ok(m as u64),
        Err(e) => Err(e),
    }
}

} // verus!
