//! Parsing of one access-log line: grammar, timestamp, numbers.

use crate::entry::{entry_members, entry_of, AccessLog, AccessLogView};
use crate::error::LogError;
use crate::grammar::{fields_from_groups, fields_of, line_groups, LogFieldsView, LogParser};
use crate::json::{JsonMemberView, JsonObject};
use crate::timestamp::{normalise_timestamp, normalised};
use vstd::prelude::*;

verus! {

/// The entry that the tokens of a matched line give. The timestamp is looked
/// at first: a line without one, or with one that is no date and time, has
/// an invalid timestamp whatever its numbers are.
pub open spec fn fields_outcome(fields: LogFieldsView) -> Result<AccessLogView, LogError> {
    match fields.timestamp {
        Some(text) => match normalised(text) {
            Some(stamps) => entry_of(fields, stamps),
            None => Err(LogError::TimestampInvalid),
        },
        None => Err(LogError::TimestampInvalid),
    }
}

/// The tokens that the grammar cuts out of a line, where the line matches.
pub open spec fn line_fields(line: Seq<char>) -> Option<LogFieldsView> {
    match line_groups(line) {
        Some(groups) => fields_of(groups),
        None => None,
    }
}

/// The entry that a line gives, or the reason it gives none.
pub open spec fn line_outcome(line: Seq<char>) -> Result<AccessLogView, LogError> {
    match line_fields(line) {
        Some(fields) => fields_outcome(fields),
        None => Err(LogError::GrammarMismatch),
    }
}

/// The JSON object that a line gives, or the reason it gives none.
pub open spec fn line_json(line: Seq<char>) -> Result<Seq<JsonMemberView>, LogError> {
    match line_outcome(line) {
        Ok(entry) => Ok(entry_members(entry)),
        Err(err) => Err(err),
    }
}

impl LogParser {
    /// Parses one line into its structured entry.
    pub fn parse(&self, line: &str) -> (r: Result<AccessLog, LogError>)
        ensures
            match line_outcome(line@) {
                Ok(entry) => r matches Ok(parsed) && parsed@ == entry,
                Err(err) => r == Err::<AccessLog, LogError>(err),
            },
    {
        let groups = match self.captures(line) {
            Some(groups) => groups,
            None => {
                return Err(LogError::GrammarMismatch);
            },
        };
        let fields = match fields_from_groups(&groups) {
            Some(fields) => fields,
            None => {
                return Err(LogError::GrammarMismatch);
            },
        };
        let stamps = match &fields.timestamp {
            Some(text) => match normalise_timestamp(text.as_str()) {
                Ok(stamps) => stamps,
                Err(err) => {
                    return Err(err);
                },
            },
            None => {
                return Err(LogError::TimestampInvalid);
            },
        };
        AccessLog::from_fields(fields, stamps)
    }
}

/// Parses one line and hands back its JSON object.
pub fn apache_log2json(parser: &LogParser, s: &str) -> (r: Result<JsonObject, LogError>)
    ensures
        match line_json(s@) {
            Ok(members) => r matches Ok(object) && object@ == members,
            Err(err) => r == Err::<JsonObject, LogError>(err),
        },
{
    match parser.parse(s) {
        Ok(entry) => Ok(entry.to_json()),
        Err(err) => Err(err),
    }
}

} // verus!
