//! The transport encoding of payloads: padded base64 around UTF-8 text.

use crate::error::LogError;
use vstd::prelude::*;
use vstd::std_specs::convert::FromSpecImpl;
use vstd::utf8::{decode_utf8, encode_utf8, valid_utf8};

verus! {

/// `data_encoding::DecodeError`, the place and kind of a base64 fault.
#[verifier::external_type_specification]
#[verifier::external_body]
pub struct ExBase64Error(data_encoding::DecodeError);

/// `std::string::FromUtf8Error`, the reason bytes are not UTF-8.
#[verifier::external_type_specification]
#[verifier::external_body]
pub struct ExFromUtf8Error(std::string::FromUtf8Error);

impl From<data_encoding::DecodeError> for LogError {
    fn from(err: data_encoding::DecodeError) -> (r: LogError) {
        LogError::InvalidEncoding
    }
}

impl FromSpecImpl<data_encoding::DecodeError> for LogError {
    open spec fn obeys_from_spec() -> bool {
        true
    }

    open spec fn from_spec(err: data_encoding::DecodeError) -> LogError {
        LogError::InvalidEncoding
    }
}

impl From<std::string::FromUtf8Error> for LogError {
    fn from(err: std::string::FromUtf8Error) -> (r: LogError) {
        LogError::InvalidUtf8
    }
}

impl FromSpecImpl<std::string::FromUtf8Error> for LogError {
    open spec fn obeys_from_spec() -> bool {
        true
    }

    open spec fn from_spec(err: std::string::FromUtf8Error) -> LogError {
        LogError::InvalidUtf8
    }
}

/// What `data_encoding::BASE64.decode` returns for an input: the bytes it
/// stands for, or nothing where the input is not canonical padded base64.
pub uninterp spec fn base64_decoded(input: Seq<u8>) -> Option<Seq<u8>>;

/// The text that `data_encoding::BASE64.encode` returns for the bytes.
pub uninterp spec fn base64_encoded(input: Seq<u8>) -> Seq<char>;

/// The longest input, in bytes, that the decoder takes in one piece.
pub open spec fn decode_limit() -> usize {
    usize::MAX / 8
}

/// The longest input, in bytes, that the encoder takes in one piece.
pub open spec fn encode_limit() -> usize {
    usize::MAX / 512
}

/// Calls `data_encoding::BASE64.decode`, which is documented to depend on
/// its input alone and may panic on an input above an eighth of `usize::MAX`.
#[verifier::external_body]
fn base64_decode(input: &[u8]) -> (r: Result<Vec<u8>, data_encoding::DecodeError>)
    requires
        input@.len() <= decode_limit(),
    ensures
        r is Ok <==> base64_decoded(input@) is Some,
        r matches Ok(bytes) ==> base64_decoded(input@) == Some(bytes@),
{
    data_encoding::BASE64.decode(input)
}

/// Calls `data_encoding::BASE64.encode`, which is documented to depend on
/// its input alone, to give a text that decodes to the input again, and may
/// panic on an input above `usize::MAX / 512`.
#[verifier::external_body]
fn base64_encode(input: &[u8]) -> (r: String)
    requires
        input@.len() <= encode_limit(),
    ensures
        r@ == base64_encoded(input@),
        base64_decoded(encode_utf8(r@)) == Some(input@),
{
    data_encoding::BASE64.encode(input)
}

/// Calls `String::from_utf8`: the bytes become a string exactly when they
/// are well-formed UTF-8, and the string then spells them.
#[verifier::external_body]
fn string_from_utf8(bytes: Vec<u8>) -> (r: Result<String, std::string::FromUtf8Error>)
    ensures
        r is Ok <==> valid_utf8(bytes@),
        r matches Ok(text) ==> text@ == decode_utf8(bytes@),
{
    String::from_utf8(bytes)
}

/// The bytes that a payload carries: its base64 reading, where it has one
/// and is not too long to be decoded.
pub open spec fn decoded_payload(data: Seq<char>) -> Result<Seq<u8>, LogError> {
    let input = encode_utf8(data);
    if input.len() > decode_limit() {
        Err(LogError::InvalidEncoding)
    } else {
        match base64_decoded(input) {
            Some(bytes) => Ok(bytes),
            None => Err(LogError::InvalidEncoding),
        }
    }
}

/// The payload that carries the bytes, where they are not too many to be
/// encoded.
pub open spec fn encoded_payload(bytes: Seq<u8>) -> Result<Seq<char>, LogError> {
    if bytes.len() > encode_limit() {
        Err(LogError::SerializeFailed)
    } else {
        Ok(base64_encoded(bytes))
    }
}

/// The text that the bytes spell in UTF-8.
pub open spec fn utf8_text(bytes: Seq<u8>) -> Result<Seq<char>, LogError> {
    if valid_utf8(bytes) {
        Ok(decode_utf8(bytes))
    } else {
        Err(LogError::InvalidUtf8)
    }
}

/// Decodes a payload from base64.
pub fn decode_payload(data: &str) -> (r: Result<Vec<u8>, LogError>)
    ensures
        match decoded_payload(data@) {
            Ok(bytes) => r matches Ok(decoded) && decoded@ == bytes,
            Err(err) => r == Err::<Vec<u8>, LogError>(err),
        },
{
    let input = data.as_bytes();
    if input.len() > usize::MAX / 8 {
        return Err(LogError::InvalidEncoding);
    }
    match base64_decode(input) {
        Ok(bytes) => Ok(bytes),
        Err(err) => Err(LogError::from(err)),
    }
}

/// Encodes bytes as a base64 payload.
pub fn encode_payload(bytes: &[u8]) -> (r: Result<String, LogError>)
    ensures
        match encoded_payload(bytes@) {
            Ok(text) => r matches Ok(encoded) && encoded@ == text,
            Err(err) => r == Err::<String, LogError>(err),
        },
        r matches Ok(encoded) ==> base64_decoded(encode_utf8(encoded@)) == Some(bytes@),
{
    if bytes.len() > usize::MAX / 512 {
        return Err(LogError::SerializeFailed);
    }
    Ok(base64_encode(bytes))
}

/// Reads bytes as UTF-8 text.
pub fn text_from_utf8(bytes: Vec<u8>) -> (r: Result<String, LogError>)
    ensures
        match utf8_text(bytes@) {
            Ok(text) => r matches Ok(read) && read@ == text,
            Err(err) => r == Err::<String, LogError>(err),
        },
{
    match string_from_utf8(bytes) {
        Ok(text) => Ok(text),
        Err(err) => Err(LogError::from(err)),
    }
}

} // verus!
