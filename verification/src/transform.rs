//! The transformation of records and batches. A record that cannot be
//! transformed is handed back as it came, marked as failed.

use crate::error::LogError;
use crate::grammar::LogParser;
use crate::json::json_document;
use crate::parser::{apache_log2json, line_json};
use crate::transport::{
    base64_decoded, decode_payload, decoded_payload, encode_payload, encoded_payload,
    text_from_utf8, utf8_text,
};
use vstd::prelude::*;
use vstd::utf8::encode_utf8;

verus! {

/// One record of an incoming batch.
#[derive(Clone, Debug, PartialEq, Eq)]
pub struct FirehoseRecord {
    pub record_id: String,
    /// A log line, in base64.
    pub data: String,
    /// When the record arrived, in milliseconds since 1970. Carried, not read.
    pub approximate_arrival_timestamp: i64,
}

pub struct FirehoseRecordView {
    pub record_id: Seq<char>,
    pub data: Seq<char>,
    pub approximate_arrival_timestamp: i64,
}

impl View for FirehoseRecord {
    type V = FirehoseRecordView;

    open spec fn view(&self) -> FirehoseRecordView {
        FirehoseRecordView {
            record_id: self.record_id@,
            data: self.data@,
            approximate_arrival_timestamp: self.approximate_arrival_timestamp,
        }
    }
}

/// Whether a record was transformed.
#[derive(Clone, Copy, Debug, PartialEq, Eq, Structural)]
pub enum TransformationResult {
    /// The payload is the JSON document of the line. On the wire: `Ok`.
    Transformed,
    /// The payload is the incoming one.
    ProcessingFailed,
}

pub const RESULT_OK: &'static str = "Ok";

pub const RESULT_FAILED: &'static str = "ProcessingFailed";

impl TransformationResult {
    /// The word that stands for the result on the wire.
    pub open spec fn wire_text(self) -> Seq<char> {
        match self {
            TransformationResult::Transformed => RESULT_OK@,
            TransformationResult::ProcessingFailed => RESULT_FAILED@,
        }
    }

    /// The word that stands for the result on the wire.
    pub fn as_str(&self) -> (r: &'static str)
        ensures
            r@ == self.wire_text(),
    {
        match self {
            TransformationResult::Transformed => RESULT_OK,
            TransformationResult::ProcessingFailed => RESULT_FAILED,
        }
    }
}

/// One record of an outgoing batch.
#[derive(Clone, Debug, PartialEq, Eq)]
pub struct TransformationRecord {
    pub record_id: String,
    pub result: TransformationResult,
    /// The JSON document in base64, or the incoming payload of a failed record.
    pub data: String,
}

pub struct TransformationRecordView {
    pub record_id: Seq<char>,
    pub result: TransformationResult,
    pub data: Seq<char>,
}

impl View for TransformationRecord {
    type V = TransformationRecordView;

    open spec fn view(&self) -> TransformationRecordView {
        TransformationRecordView {
            record_id: self.record_id@,
            result: self.result,
            data: self.data@,
        }
    }
}

/// The JSON document of the line that the bytes spell.
pub open spec fn payload_outcome(bytes: Seq<u8>) -> Result<Seq<u8>, LogError> {
    match utf8_text(bytes) {
        Ok(line) => match line_json(line) {
            Ok(members) => match json_document(members) {
                Some(document) => Ok(document),
                None => Err(LogError::SerializeFailed),
            },
            Err(err) => Err(err),
        },
        Err(err) => Err(err),
    }
}

/// The JSON document of the line that a payload carries.
pub open spec fn document_of(data: Seq<char>) -> Result<Seq<u8>, LogError> {
    match decoded_payload(data) {
        Ok(bytes) => payload_outcome(bytes),
        Err(err) => Err(err),
    }
}

/// The payload that takes the place of an incoming one: decoded, parsed,
/// written out as JSON and encoded again.
pub open spec fn data_outcome(data: Seq<char>) -> Result<Seq<char>, LogError> {
    match document_of(data) {
        Ok(document) => encoded_payload(document),
        Err(err) => Err(err),
    }
}

/// What an outgoing payload reads as in base64.
pub open spec fn carried_bytes(data: Seq<char>) -> Option<Seq<u8>> {
    base64_decoded(encode_utf8(data))
}

/// The outgoing record for an incoming one and the outcome of its payload.
pub open spec fn settled(record: FirehoseRecordView, outcome: Result<Seq<char>, LogError>)
    -> TransformationRecordView {
    match outcome {
        Ok(data) => TransformationRecordView {
            record_id: record.record_id,
            result: TransformationResult::Transformed,
            data,
        },
        Err(_) => TransformationRecordView {
            record_id: record.record_id,
            result: TransformationResult::ProcessingFailed,
            data: record.data,
        },
    }
}

/// The outgoing record for an incoming one.
pub open spec fn record_outcome(record: FirehoseRecordView) -> TransformationRecordView {
    settled(record, data_outcome(record.data))
}

/// The views of an outcome of a payload.
pub open spec fn outcome_view(outcome: Result<String, LogError>) -> Result<Seq<char>, LogError> {
    match outcome {
        Ok(data) => Ok(data@),
        Err(err) => Err(err),
    }
}

/// Turns the bytes of a log line into the bytes of its JSON document.
pub fn transform_data(parser: &LogParser, data: Vec<u8>) -> (r: Result<Vec<u8>, LogError>)
    ensures
        match payload_outcome(data@) {
            Ok(document) => r matches Ok(written) && written@ == document,
            Err(err) => r == Err::<Vec<u8>, LogError>(err),
        },
{
    let line = match text_from_utf8(data) {
        Ok(line) => line,
        Err(err) => {
            return Err(err);
        },
    };
    let object = match apache_log2json(parser, line.as_str()) {
        Ok(object) => object,
        Err(err) => {
            return Err(err);
        },
    };
    object.to_vec()
}

/// Decodes a payload, transforms the line in it and encodes the document.
pub fn transform_payload(parser: &LogParser, data: &str) -> (r: Result<String, LogError>)
    ensures
        outcome_view(r) == data_outcome(data@),
        r matches Ok(encoded) ==> document_of(data@) is Ok && carried_bytes(encoded@) == Some(
            document_of(data@)->Ok_0,
        ),
{
    let bytes = match decode_payload(data) {
        Ok(bytes) => bytes,
        Err(err) => {
            return Err(err);
        },
    };
    let document = match transform_data(parser, bytes) {
        Ok(document) => document,
        Err(err) => {
            return Err(err);
        },
    };
    encode_payload(document.as_slice())
}

impl TransformationRecord {
    /// Settles a record: a transformed payload goes out as `Transformed`; after any
    /// failure the incoming payload goes out unchanged, as `ProcessingFailed`.
    pub fn settle(record: &FirehoseRecord, outcome: Result<String, LogError>) -> (r:
        TransformationRecord)
        ensures
            r@ == settled(record@, outcome_view(outcome)),
            outcome matches Ok(data) ==> r.data@ == data@,
    {
        match outcome {
            Ok(data) => TransformationRecord {
                record_id: record.record_id.clone(),
                result: TransformationResult::Transformed,
                data,
            },
            Err(_) => TransformationRecord {
                record_id: record.record_id.clone(),
                result: TransformationResult::ProcessingFailed,
                data: record.data.clone(),
            },
        }
    }
}

/// Transforms one record. Never fails: a failure shows in the result.
pub fn transform_record(parser: &LogParser, record: &FirehoseRecord) -> (r: TransformationRecord)
    ensures
        r@ == record_outcome(record@),
        r.result == TransformationResult::Transformed ==> document_of(record.data@) is Ok
            && carried_bytes(r.data@) == Some(document_of(record.data@)->Ok_0),
{
    let outcome = transform_payload(parser, record.data.as_str());
    TransformationRecord::settle(record, outcome)
}

/// The outgoing batch for an incoming one: record by record, in order.
pub open spec fn batch_outcome(records: Seq<FirehoseRecordView>) -> Seq<TransformationRecordView> {
    Seq::new(records.len(), |i: int| record_outcome(records[i]))
}

/// The views of the records of an incoming batch.
pub open spec fn incoming_view(records: Seq<FirehoseRecord>) -> Seq<FirehoseRecordView> {
    Seq::new(records.len(), |i: int| records[i]@)
}

/// The views of the records of an outgoing batch.
pub open spec fn outgoing_view(records: Seq<TransformationRecord>) -> Seq<TransformationRecordView> {
    Seq::new(records.len(), |i: int| records[i]@)
}

/// Transforms a batch: one outgoing record for each incoming one, in the
/// order of the batch, each settled on its own.
pub fn transform_batch(parser: &LogParser, records: &Vec<FirehoseRecord>) -> (r: Vec<
    TransformationRecord,
>)
    ensures
        outgoing_view(r@) == batch_outcome(incoming_view(records@)),
{
    let mut out: Vec<TransformationRecord> = Vec::new();
    let mut i: usize = 0;
    while i < records.len()
        invariant
            i <= records.len(),
            out@.len() == i,
            forall|k: int| 0 <= k < i ==> (#[trigger] out@[k])@ == record_outcome(records@[k]@),
        decreases records.len() - i,
    {
        out.push(transform_record(parser, &records[i]));
        i = i + 1;
    }
    assert(outgoing_view(out@) =~= batch_outcome(incoming_view(records@)));
    out
}

} // verus!
