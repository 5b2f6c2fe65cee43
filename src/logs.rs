//! The log codec: base64, then an OTLP `ExportLogsServiceRequest`.
use vstd::prelude::*;

use opentelemetry_proto::tonic::collector::logs::v1::ExportLogsServiceRequest;
use prost::Message;

use crate::codec::{decode_base64, decode_outcome, outcome_of, SignalDecodeError, SignalKind};

verus! {

#[verifier::external_type_specification]
#[verifier::external_body]
pub struct ExExportLogsServiceRequest(ExportLogsServiceRequest);

/// Whether `bytes` parse as an OTLP logs export request.
pub uninterp spec fn is_log_message(bytes: Seq<u8>) -> bool;

/// Relies on `prost::Message::decode` for `ExportLogsServiceRequest`: it
/// succeeds exactly on the byte strings of that schema, a property of the bytes
/// alone.
#[verifier::external_body]
fn decode_log_message(bytes: Vec<u8>) -> (r: Result<ExportLogsServiceRequest, prost::DecodeError>)
    ensures
        r is Ok <==> is_log_message(bytes@),
{
    ExportLogsServiceRequest::decode(prost::bytes::Bytes::from(bytes))
}

/// A decoded logs export request, ready for the logs backend.
/// The second field is the record it was decoded from.
pub struct LogRequest(pub ExportLogsServiceRequest, pub Ghost<Seq<char>>);

impl LogRequest {
    /// Decodes an opaque record as a logs export request.
    pub fn decode(raw: &str) -> (r: Result<LogRequest, SignalDecodeError>)
        ensures
            r is Ok ==> r->Ok_0.1@ == raw@,
            outcome_of(r) == decode_outcome(raw@, SignalKind::Log),
    {
        let bytes = match decode_base64(raw) {
            Ok(bytes) => bytes,
            Err(_) => return Err(SignalDecodeError::Encoding),
        };
        match decode_log_message(bytes) {
            Ok(request) => Ok(LogRequest(request, Ghost(raw@))),
            Err(_) => Err(SignalDecodeError::Schema),
        }
    }
}

impl TryFrom<String> for LogRequest {
    type Error = SignalDecodeError;

    fn try_from(value: String) -> (r: Result<LogRequest, SignalDecodeError>)
        ensures
            r is Ok ==> r->Ok_0.1@ == value@,
            outcome_of(r) == decode_outcome(value@, SignalKind::Log),
    {
        LogRequest::decode(value.as_str())
    }
}

/// The decoded request has no value in specifications, so the trait-level
/// specification stays unused; `try_from` itself states its outcome.
impl vstd::std_specs::convert::TryFromSpecImpl<String> for LogRequest {
    open spec fn obeys_try_from_spec() -> bool {
        false
    }

    open spec fn try_from_spec(v: String) -> Result<LogRequest, SignalDecodeError> {
        arbitrary()
    }
}

} // verus!
