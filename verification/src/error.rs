//! Failure kinds of the record transformation.

use vstd::prelude::*;
use vstd::std_specs::convert::FromSpecImpl;

verus! {

/// Why one record could not be transformed.
#[derive(Clone, Copy, Debug, PartialEq, Eq, Structural)]
pub enum LogError {
    /// The line does not match the access-log grammar.
    GrammarMismatch,
    /// The bracketed timestamp is absent or is no date and time with an offset.
    TimestampInvalid,
    /// The status or the byte count is not an unsigned 32-bit decimal number.
    NumericInvalid,
    /// The payload is not canonical padded base64.
    InvalidEncoding,
    /// The decoded payload is not UTF-8.
    InvalidUtf8,
    /// The structured entry could not be written out or re-encoded.
    SerializeFailed,
}

impl From<chrono::ParseError> for LogError {
    fn from(err: chrono::ParseError) -> (r: LogError) {
        LogError::TimestampInvalid
    }
}

impl FromSpecImpl<chrono::ParseError> for LogError {
    open spec fn obeys_from_spec() -> bool {
        true
    }

    open spec fn from_spec(err: chrono::ParseError) -> LogError {
        LogError::TimestampInvalid
    }
}

pub const TEXT_GRAMMAR_MISMATCH: &'static str = "FAIL. unmatched pattern.";

pub const TEXT_TIMESTAMP_INVALID: &'static str = "FAIL. invalid timestamp.";

pub const TEXT_NUMERIC_INVALID: &'static str = "FAIL. invalid number.";

pub const TEXT_INVALID_ENCODING: &'static str = "FAIL. invalid base64 payload.";

pub const TEXT_INVALID_UTF8: &'static str = "FAIL. payload is not UTF-8.";

pub const TEXT_SERIALIZE_FAILED: &'static str = "FAIL. entry could not be serialized.";

impl LogError {
    /// The text that `description` returns for each failure kind.
    pub open spec fn description_text(self) -> Seq<char> {
        match self {
            LogError::GrammarMismatch => TEXT_GRAMMAR_MISMATCH@,
            LogError::TimestampInvalid => TEXT_TIMESTAMP_INVALID@,
            LogError::NumericInvalid => TEXT_NUMERIC_INVALID@,
            LogError::InvalidEncoding => TEXT_INVALID_ENCODING@,
            LogError::InvalidUtf8 => TEXT_INVALID_UTF8@,
            LogError::SerializeFailed => TEXT_SERIALIZE_FAILED@,
        }
    }

    /// A short fixed message for the failure kind.
    pub fn description(&self) -> (r: &'static str)
        ensures
            r@ == self.description_text(),
    {
        match self {
            LogError::GrammarMismatch => TEXT_GRAMMAR_MISMATCH,
            LogError::TimestampInvalid => TEXT_TIMESTAMP_INVALID,
            LogError::NumericInvalid => TEXT_NUMERIC_INVALID,
            LogError::InvalidEncoding => TEXT_INVALID_ENCODING,
            LogError::InvalidUtf8 => TEXT_INVALID_UTF8,
            LogError::SerializeFailed => TEXT_SERIALIZE_FAILED,
        }
    }
}

} // verus!
