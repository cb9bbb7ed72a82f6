//! The structured form of one access-log line.

use crate::error::LogError;
use crate::grammar::{LogFields, LogFieldsView};
use crate::json::{JsonMember, JsonMemberView, JsonObject, JsonValue, JsonValueView};
use crate::numeric::{parse_unsigned, unsigned_value};
use crate::timestamp::{DualTimestamp, DualTimestampView};
use vstd::prelude::*;
use vstd::string::StringExecFns;
use vstd::utf8::encode_utf8;

verus! {

pub const FIELD_HOST: &'static str = "host";

pub const FIELD_IDENT: &'static str = "ident";

pub const FIELD_AUTHUSER: &'static str = "authuser";

pub const FIELD_TIMESTAMP: &'static str = "@timestamp";

pub const FIELD_TIMESTAMP_UTC: &'static str = "@timestamp_utc";

pub const FIELD_REQUEST: &'static str = "request";

pub const FIELD_RESPONSE: &'static str = "response";

pub const FIELD_BYTES: &'static str = "bytes";

/// One parsed line.
#[derive(Clone, Debug, PartialEq, Eq)]
pub struct AccessLog {
    pub host: String,
    pub ident: String,
    pub authuser: String,
    /// The instant of the request, at the offset the line gave it in.
    pub timestamp: String,
    /// The same instant at UTC.
    pub timestamp_utc: String,
    pub request: String,
    pub response: u32,
    pub bytes: u32,
}

pub struct AccessLogView {
    pub host: Seq<char>,
    pub ident: Seq<char>,
    pub authuser: Seq<char>,
    pub timestamp: Seq<char>,
    pub timestamp_utc: Seq<char>,
    pub request: Seq<char>,
    pub response: u32,
    pub bytes: u32,
}

impl View for AccessLog {
    type V = AccessLogView;

    open spec fn view(&self) -> AccessLogView {
        AccessLogView {
            host: self.host@,
            ident: self.ident@,
            authuser: self.authuser@,
            timestamp: self.timestamp@,
            timestamp_utc: self.timestamp_utc@,
            request: self.request@,
            response: self.response,
            bytes: self.bytes,
        }
    }
}

/// The entry that the tokens of a line and the renderings of its timestamp
/// make: the text tokens as they are, the status and the byte count by their
/// decimal value. There is none where either number is not valid.
pub open spec fn entry_of(fields: LogFieldsView, stamps: DualTimestampView) -> Result<
    AccessLogView,
    LogError,
> {
    match (unsigned_value(encode_utf8(fields.status)), unsigned_value(encode_utf8(fields.bytes))) {
        (Some(response), Some(bytes)) => Ok(
            AccessLogView {
                host: fields.host,
                ident: fields.ident,
                authuser: fields.authuser,
                timestamp: stamps.local,
                timestamp_utc: stamps.utc,
                request: fields.request,
                response,
                bytes,
            },
        ),
        _ => Err(LogError::NumericInvalid),
    }
}

/// A text member.
pub open spec fn text_member(name: Seq<char>, text: Seq<char>) -> JsonMemberView {
    JsonMemberView { name, value: JsonValueView::Text(text) }
}

/// A number member.
pub open spec fn number_member(name: Seq<char>, n: u32) -> JsonMemberView {
    JsonMemberView { name, value: JsonValueView::Number(n) }
}

/// The members of the document of an entry, in the order of its fields.
pub open spec fn entry_members(entry: AccessLogView) -> Seq<JsonMemberView> {
    seq![
        text_member(FIELD_HOST@, entry.host),
        text_member(FIELD_IDENT@, entry.ident),
        text_member(FIELD_AUTHUSER@, entry.authuser),
        text_member(FIELD_TIMESTAMP@, entry.timestamp),
        text_member(FIELD_TIMESTAMP_UTC@, entry.timestamp_utc),
        text_member(FIELD_REQUEST@, entry.request),
        number_member(FIELD_RESPONSE@, entry.response),
        number_member(FIELD_BYTES@, entry.bytes),
    ]
}

fn text(name: &str, value: &String) -> (r: JsonMember)
    ensures
        r@ == text_member(name@, value@),
{
    JsonMember { name: String::from_str(name), value: JsonValue::Text(value.clone()) }
}

fn number(name: &str, value: u32) -> (r: JsonMember)
    ensures
        r@ == number_member(name@, value),
{
    JsonMember { name: String::from_str(name), value: JsonValue::Number(value) }
}

impl AccessLog {
    /// Builds the entry from the tokens of a matched line and the renderings
    /// of its timestamp. Fails where the status or the byte count is no
    /// unsigned 32-bit decimal number.
    pub fn from_fields(fields: LogFields, stamps: DualTimestamp) -> (r: Result<AccessLog, LogError>)
        ensures
            r is Ok <==> entry_of(fields@, stamps@) is Ok,
            r matches Ok(entry) ==> entry_of(fields@, stamps@) == Ok::<AccessLogView, LogError>(
                entry@,
            ),
            r matches Err(err) ==> err == LogError::NumericInvalid,
    {
        let response = match parse_unsigned(fields.status.as_str()) {
            Some(n) => n,
            None => {
                return Err(LogError::NumericInvalid);
            },
        };
        let bytes = match parse_unsigned(fields.bytes.as_str()) {
            Some(n) => n,
            None => {
                return Err(LogError::NumericInvalid);
            },
        };
        Ok(
            AccessLog {
                host: fields.host,
                ident: fields.ident,
                authuser: fields.authuser,
                timestamp: stamps.local,
                timestamp_utc: stamps.utc,
                request: fields.request,
                response,
                bytes,
            },
        )
    }

    /// The JSON object of the entry: six text members and two number members.
    pub fn to_json(&self) -> (r: JsonObject)
        ensures
            r@ == entry_members(self@),
    {
        let mut members: Vec<JsonMember> = Vec::new();
        members.push(text(FIELD_HOST, &self.host));
        members.push(text(FIELD_IDENT, &self.ident));
        members.push(text(FIELD_AUTHUSER, &self.authuser));
        members.push(text(FIELD_TIMESTAMP, &self.timestamp));
        members.push(text(FIELD_TIMESTAMP_UTC, &self.timestamp_utc));
        members.push(text(FIELD_REQUEST, &self.request));
        members.push(number(FIELD_RESPONSE, self.response));
        members.push(number(FIELD_BYTES, self.bytes));
        let object = JsonObject { members };
        assert(object@ =~= entry_members(self@));
        object
    }
}

} // verus!
