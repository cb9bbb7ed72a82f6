//! Transformation of batches of base64-carried access-log lines into
//! structured JSON records, with every failure confined to its own record.

pub mod error;
pub mod numeric;
pub mod grammar;
pub mod timestamp;
pub mod json;
pub mod entry;
pub mod transport;
pub mod parser;
pub mod transform;
pub mod laws;
