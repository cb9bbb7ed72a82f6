//! What holds of every record and every batch.

use crate::entry::{entry_members, AccessLogView};
use crate::error::LogError;
use crate::grammar::LogFieldsView;
use crate::json::json_document;
use crate::numeric::unsigned_value;
use crate::parser::{line_fields, line_outcome};
use crate::timestamp::{normalised, DualTimestampView};
use crate::transform::{
    batch_outcome, data_outcome, document_of, record_outcome, FirehoseRecordView,
    TransformationRecordView, TransformationResult,
};
use crate::transport::{base64_encoded, decoded_payload, encode_limit};
use vstd::prelude::*;
use vstd::seq_lib::{commutative_foldl, lemma_fold_left_permutation};
use vstd::utf8::{decode_utf8, encode_utf8, valid_utf8};

verus! {

/// Every incoming record has exactly one outgoing record, at the same place
/// in the batch and with the same id.
pub proof fn batch_keeps_every_record(records: Seq<FirehoseRecordView>)
    ensures
        batch_outcome(records).len() == records.len(),
        forall|i: int|
            0 <= i < records.len() ==> (#[trigger] batch_outcome(records)[i]).record_id
                == records[i].record_id,
{
}

/// A batch of one record gives one record, with the id of the one that came in.
pub proof fn single_record_batch(record: FirehoseRecordView)
    ensures
        batch_outcome(seq![record]).len() == 1,
        batch_outcome(seq![record])[0].record_id == record.record_id,
        batch_outcome(seq![record])[0] == record_outcome(record),
{
}

/// Two runs over the same batch give the same records, text for text: what
/// goes out is decided by what came in and by nothing else.
pub proof fn rerun_gives_the_same_batch(
    records: Seq<FirehoseRecordView>,
    first: Seq<TransformationRecordView>,
    second: Seq<TransformationRecordView>,
)
    requires
        first == batch_outcome(records),
        second == batch_outcome(records),
    ensures
        first == second,
        first.len() == records.len(),
        forall|i: int|
            0 <= i < records.len() ==> (#[trigger] first[i]).data == second[i].data && first[i].result
                == second[i].result && first[i].record_id == second[i].record_id,
{
}

/// A record goes out as failed, with the payload it came with, whenever any
/// step of its transformation fails.
pub proof fn failed_record_keeps_payload(record: FirehoseRecordView)
    requires
        data_outcome(record.data) is Err,
    ensures
        record_outcome(record).result == TransformationResult::ProcessingFailed,
        record_outcome(record).data == record.data,
        record_outcome(record).record_id == record.record_id,
{
}

/// A record whose payload decodes to bytes that are not UTF-8, or to text
/// that the grammar does not match, goes out as failed with its payload
/// unchanged.
pub proof fn unreadable_line_keeps_payload(record: FirehoseRecordView, bytes: Seq<u8>)
    requires
        decoded_payload(record.data) == Ok::<Seq<u8>, LogError>(bytes),
        !valid_utf8(bytes) || line_fields(decode_utf8(bytes)) is None,
    ensures
        record_outcome(record).result == TransformationResult::ProcessingFailed,
        record_outcome(record).data == record.data,
        !valid_utf8(bytes) ==> document_of(record.data) == Err::<Seq<u8>, LogError>(
            LogError::InvalidUtf8,
        ),
        valid_utf8(bytes) ==> document_of(record.data) == Err::<Seq<u8>, LogError>(
            LogError::GrammarMismatch,
        ),
{
}

/// A payload that is no base64 goes out as failed, unchanged.
pub proof fn undecodable_payload_is_kept(record: FirehoseRecordView)
    requires
        decoded_payload(record.data) is Err,
    ensures
        record_outcome(record).result == TransformationResult::ProcessingFailed,
        record_outcome(record).data == record.data,
{
}

/// The entry of a line that matches the grammar, with a timestamp that reads
/// and numbers that are valid: it holds the host, the two user tokens and
/// the request as the line has them, and the status and the byte count by
/// their value.
pub proof fn well_formed_line_keeps_its_values(
    line: Seq<char>,
    fields: LogFieldsView,
    text: Seq<char>,
    stamps: DualTimestampView,
)
    requires
        line_fields(line) == Some(fields),
        fields.timestamp == Some(text),
        normalised(text) == Some(stamps),
        unsigned_value(encode_utf8(fields.status)) is Some,
        unsigned_value(encode_utf8(fields.bytes)) is Some,
    ensures
        line_outcome(line) matches Ok(entry) && entry.host == fields.host && entry.ident
            == fields.ident && entry.authuser == fields.authuser && entry.request
            == fields.request && Some(entry.response) == unsigned_value(
            encode_utf8(fields.status),
        ) && Some(entry.bytes) == unsigned_value(encode_utf8(fields.bytes)) && entry.timestamp
            == stamps.local && entry.timestamp_utc == stamps.utc,
{
}

/// A record that carries such a line goes out as transformed, and its
/// payload is the base64 text of the JSON document of that entry, provided
/// the document can be written and is not too long to be encoded.
pub proof fn well_formed_record_is_transformed(
    record: FirehoseRecordView,
    bytes: Seq<u8>,
    entry: AccessLogView,
    document: Seq<u8>,
)
    requires
        decoded_payload(record.data) == Ok::<Seq<u8>, LogError>(bytes),
        valid_utf8(bytes),
        line_outcome(decode_utf8(bytes)) == Ok::<AccessLogView, LogError>(entry),
        json_document(entry_members(entry)) == Some(document),
        document.len() <= encode_limit(),
    ensures
        record_outcome(record).result == TransformationResult::Transformed,
        record_outcome(record).record_id == record.record_id,
        record_outcome(record).data == base64_encoded(document),
        document_of(record.data) == Ok::<Seq<u8>, LogError>(document),
{
}

/// The record is transformed exactly when every step succeeds.
pub proof fn transformed_iff_every_step_succeeds(record: FirehoseRecordView)
    ensures
        record_outcome(record).result == TransformationResult::Transformed <==> data_outcome(
            record.data,
        ) is Ok,
{
}

/// A record is well formed when its payload can be transformed.
pub open spec fn is_well_formed(record: FirehoseRecordView) -> bool {
    data_outcome(record.data) is Ok
}

/// Counts one more for a transformed record.
pub open spec fn count_transformed(n: nat, record: TransformationRecordView) -> nat {
    if record.result == TransformationResult::Transformed {
        n + 1
    } else {
        n
    }
}

/// Counts one more for a well-formed record.
pub open spec fn count_well_formed(n: nat, record: FirehoseRecordView) -> nat {
    if is_well_formed(record) {
        n + 1
    } else {
        n
    }
}

/// How many records of an outgoing batch are transformed.
pub open spec fn transformed_count(out: Seq<TransformationRecordView>) -> nat {
    out.fold_left(0nat, |n: nat, record: TransformationRecordView| count_transformed(n, record))
}

/// How many records of an incoming batch are well formed.
pub open spec fn well_formed_count(records: Seq<FirehoseRecordView>) -> nat {
    records.fold_left(0nat, |n: nat, record: FirehoseRecordView| count_well_formed(n, record))
}

/// Of the records of a batch, as many go out transformed as came in well formed.
pub proof fn as_many_transformed_as_well_formed(records: Seq<FirehoseRecordView>)
    ensures
        batch_outcome(records).len() == records.len(),
        transformed_count(batch_outcome(records)) == well_formed_count(records),
    decreases records.len(),
{
    if records.len() > 0 {
        as_many_transformed_as_well_formed(records.drop_last());
        assert(batch_outcome(records).drop_last() =~= batch_outcome(records.drop_last()));
        assert(batch_outcome(records).last() == record_outcome(records.last()));
    }
}

/// The number of transformed records does not depend on the order in which
/// the records of the batch come.
pub proof fn order_does_not_change_the_count(
    first: Seq<FirehoseRecordView>,
    second: Seq<FirehoseRecordView>,
)
    requires
        first.to_multiset() == second.to_multiset(),
    ensures
        transformed_count(batch_outcome(first)) == transformed_count(batch_outcome(second)),
        batch_outcome(first).len() == batch_outcome(second).len(),
{
    let count = |n: nat, record: FirehoseRecordView| count_well_formed(n, record);
    assert(commutative_foldl(count));
    lemma_fold_left_permutation(first, second, count, 0nat);
    as_many_transformed_as_well_formed(first);
    as_many_transformed_as_well_formed(second);
    first.to_multiset_ensures();
    second.to_multiset_ensures();
}

} // verus!
