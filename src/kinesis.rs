//! The batch envelope that the delivery stream posts, and the response it
//! expects back.
use vstd::prelude::*;

verus! {

/// One delivered record: an opaque base64 payload of unknown schema.
#[derive(Debug)]
pub struct KinesisRecord {
    pub data: String,
}

/// An inbound batch. `timestamp` is passed through to the response unchanged.
#[derive(Debug)]
pub struct FirehoseRequest {
    pub request_id: String,
    pub timestamp: usize,
    pub records: Vec<KinesisRecord>,
}

/// The outcome of one batch: `error_message` is set only when the batch is
/// rejected.
#[derive(Debug)]
pub struct FirehoseResponse {
    pub request_id: String,
    pub timestamp: usize,
    pub error_message: Option<String>,
}

/// The payloads of a sequence of records, in order.
pub open spec fn record_payloads(records: Seq<KinesisRecord>) -> Seq<Seq<char>> {
    records.map_values(|r: KinesisRecord| r.data@)
}

} // verus!
