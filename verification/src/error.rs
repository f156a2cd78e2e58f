use vstd::prelude::*;

use crate::text::{chars_of, push_signed_decimal, push_str, signed_decimal, string_from_chars};

verus! {

/// Errors reported by the EDCB client library.
#[derive(Debug)]
pub enum EdcbError {
    /// A transport failure, with the transport's description.
    Io(String),
    /// The transport did not answer in time.
    Timeout,
    /// EDCB answered with a status other than success.
    CommandStatus(i32),
    /// A response body did not follow the wire format.
    Decode(String),
    /// The caller handed in something the operation cannot use.
    InvalidInput(String),
}

/// The text that describes an error.
pub open spec fn error_text(e: EdcbError) -> Seq<char> {
    match e {
        EdcbError::Io(m) => "I/O error: "@ + m@,
        EdcbError::Timeout => "operation timed out"@,
        EdcbError::CommandStatus(s) => "EDCB command returned status "@ + signed_decimal(s as int),
        EdcbError::Decode(m) => "decode error: "@ + m@,
        EdcbError::InvalidInput(m) => "invalid input: "@ + m@,
    }
}

impl EdcbError {
    /// The text that describes this error.
    pub fn message(&self) -> (s: String)
        ensures
            s@ == error_text(*self),
    {
        let mut out = match self {
            EdcbError::Io(_) => chars_of("I/O error: "),
            EdcbError::Timeout => chars_of("operation timed out"),
            EdcbError::CommandStatus(_) => chars_of("EDCB command returned status "),
            EdcbError::Decode(_) => chars_of("decode error: "),
            EdcbError::InvalidInput(_) => chars_of("invalid input: "),
        };
        match self {
            EdcbError::Io(m) => push_str(&mut out, m.as_str()),
            EdcbError::Timeout => {},
            EdcbError::CommandStatus(s) => push_signed_decimal(&mut out, *s as i64),
            EdcbError::Decode(m) => push_str(&mut out, m.as_str()),
            EdcbError::InvalidInput(m) => push_str(&mut out, m.as_str()),
        }
        string_from_chars(out.as_slice())
    }
}

/// Shorthand for results of this library.
pub type Result<T> = core::result::Result<T, EdcbError>;

/// A decode error with the given description.
pub fn decode_error(message: &str) -> (e: EdcbError)
    ensures
        e matches EdcbError::Decode(m) && m@ == message@,
{
    EdcbError::Decode(message.to_string())
}

} // verus!
