//! The trace codec: base64, then an OTLP `ExportTraceServiceRequest`.
use vstd::prelude::*;

use opentelemetry_proto::tonic::collector::trace::v1::ExportTraceServiceRequest;
use prost::Message;

use crate::codec::{decode_base64, decode_outcome, outcome_of, SignalDecodeError, SignalKind};

verus! {

#[verifier::external_type_specification]
#[verifier::external_body]
pub struct ExExportTraceServiceRequest(ExportTraceServiceRequest);

/// Whether `bytes` parse as an OTLP traces export request.
pub uninterp spec fn is_trace_message(bytes: Seq<u8>) -> bool;

/// Relies on `prost::Message::decode` for `ExportTraceServiceRequest`: it
/// succeeds exactly on the byte strings of that schema, a property of the bytes
/// alone.
#[verifier::external_body]
fn decode_trace_message(bytes: Vec<u8>) -> (r: Result<ExportTraceServiceRequest, prost::DecodeError>)
    ensures
        r is Ok <==> is_trace_message(bytes@),
{
    ExportTraceServiceRequest::decode(prost::bytes::Bytes::from(bytes))
}

/// A decoded traces export request, ready for the traces backend.
/// The second field is the record it was decoded from.
pub struct TraceRequest(pub ExportTraceServiceRequest, pub Ghost<Seq<char>>);

impl TraceRequest {
    /// Decodes an opaque record as a traces export request.
    pub fn decode(raw: &str) -> (r: Result<TraceRequest, SignalDecodeError>)
        ensures
            r is Ok ==> r->Ok_0.1@ == raw@,
            outcome_of(r) == decode_outcome(raw@, SignalKind::Trace),
    {
        let bytes = match decode_base64(raw) {
            Ok(bytes) => bytes,
            Err(_) => return Err(SignalDecodeError::Encoding),
        };
        match decode_trace_message(bytes) {
            Ok(request) => Ok(TraceRequest(request, Ghost(raw@))),
            Err(_) => Err(SignalDecodeError::Schema),
        }
    }
}

impl TryFrom<String> for TraceRequest {
    type Error = SignalDecodeError;

    fn try_from(value: String) -> (r: Result<TraceRequest, SignalDecodeError>)
        ensures
            r is Ok ==> r->Ok_0.1@ == value@,
            outcome_of(r) == decode_outcome(value@, SignalKind::Trace),
    {
        TraceRequest::decode(value.as_str())
    }
}

/// The decoded request has no value in specifications, so the trait-level
/// specification stays unused; `try_from` itself states its outcome.
impl vstd::std_specs::convert::TryFromSpecImpl<String> for TraceRequest {
    open spec fn obeys_try_from_spec() -> bool {
        false
    }

    open spec fn try_from_spec(v: String) -> Result<TraceRequest, SignalDecodeError> {
        arbitrary()
    }
}

} // verus!
