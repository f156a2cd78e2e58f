use vstd::prelude::*;

use crate::text::{chars_of, parse_unsigned, parse_unsigned_spec, string_from_chars};

verus! {

/// CtrlCmd port that the programs connect to when none is given.
pub const DEFAULT_PORT: u16 = 4510;

/// Request timeout, in seconds, when none is given.
pub const DEFAULT_TIMEOUT_SECONDS: u64 = 15;

/// The value of the last pair of `env` whose name is `key`, as a map built from the pairs in
/// order keeps it.
pub open spec fn env_lookup(env: Seq<(Seq<char>, Seq<char>)>, key: Seq<char>) -> Option<Seq<char>>
    decreases env.len(),
{
    if env.len() == 0 {
        None
    } else if env.last().0 == key {
        Some(env.last().1)
    } else {
        env_lookup(env.drop_last(), key)
    }
}

/// The port a text names, or the message that says why it names none.
pub open spec fn port_setting(v: Seq<char>) -> Result<u16, Seq<char>> {
    match parse_unsigned_spec(v, 65535) {
        Some(p) => Ok(p as u16),
        None => Err("port must be a number in 0..=65535: "@ + v),
    }
}

/// The timeout a text names, a positive number of seconds, or the message that says why it
/// names none.
pub open spec fn timeout_setting(v: Seq<char>) -> Result<u64, Seq<char>> {
    match parse_unsigned_spec(v, 18446744073709551615) {
        Some(t) => if t == 0 {
            Err("timeout must be greater than zero"@)
        } else {
            Ok(t as u64)
        },
        None => Err("timeout must be a positive integer: "@ + v),
    }
}

/// The value of the last pair of `env` whose name is `key`.
pub fn env_value(env: &[(&str, &str)], key: &str) -> (r: Option<String>)
    ensures
        match env_lookup(env.deep_view(), key@) {
            Some(v) => r matches Some(s) && s@ == v,
            None => r is None,
        },
{
    let ghost e = env.deep_view();
    let key_chars = chars_of(key);
    let mut j = env.len();
    assert(e.take(j as int) =~= e);
    while j > 0
        invariant
            j <= env@.len(),
            e == env.deep_view(),
            key_chars@ == key@,
            env_lookup(e, key@) == env_lookup(e.take(j as int), key@),
        decreases j,
    {
        let (name, value) = env[j - 1];
        let ghost t = e.take(j as int);
        assert(t.last() == (name@, value@));
        assert(t.drop_last() =~= e.take(j - 1));
        let name_chars = chars_of(name);
        if crate::cli::is_word(&name_chars, key) {
            let v = chars_of(value);
            return Some(string_from_chars(v.as_slice()));
        }
        j = j - 1;
    }
    None
}

/// Reads a port number.
pub fn parse_port(value: &str) -> (r: Result<u16, String>)
    ensures
        match port_setting(value@) {
            Ok(p) => r == Ok::<u16, String>(p),
            Err(m) => r matches Err(s) && s@ == m,
        },
{
    let cs = chars_of(value);
    match parse_unsigned(cs.as_slice(), 65535) {
        Some(p) => Ok(p as u16),
        None => Err(crate::keys::message_with("port must be a number in 0..=65535: ", value)),
    }
}

/// Reads a timeout, a positive number of seconds.
pub fn parse_timeout(value: &str) -> (r: Result<u64, String>)
    ensures
        match timeout_setting(value@) {
            Ok(t) => r == Ok::<u64, String>(t),
            Err(m) => r matches Err(s) && s@ == m,
        },
{
    let cs = chars_of(value);
    match parse_unsigned(cs.as_slice(), 18446744073709551615) {
        Some(t) => if t == 0 {
            Err("timeout must be greater than zero".to_string())
        } else {
            Ok(t)
        },
        None => Err(crate::keys::message_with("timeout must be a positive integer: ", value)),
    }
}

} // verus!
