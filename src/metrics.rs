//! The metric codec: base64, then an OTLP `ExportMetricsServiceRequest`.
use vstd::prelude::*;

use opentelemetry_proto::tonic::collector::metrics::v1::ExportMetricsServiceRequest;
use prost::Message;

use crate::codec::{decode_base64, decode_outcome, outcome_of, SignalDecodeError, SignalKind};

verus! {

#[verifier::external_type_specification]
#[verifier::external_body]
pub struct ExExportMetricsServiceRequest(ExportMetricsServiceRequest);

/// Whether `bytes` parse as an OTLP metrics export request.
pub uninterp spec fn is_metric_message(bytes: Seq<u8>) -> bool;

/// Relies on `prost::Message::decode` for `ExportMetricsServiceRequest`: it
/// succeeds exactly on the byte strings of that schema, a property of the bytes
/// alone.
#[verifier::external_body]
fn decode_metric_message(bytes: Vec<u8>) -> (r: Result<ExportMetricsServiceRequest, prost::DecodeError>)
    ensures
        r is Ok <==> is_metric_message(bytes@),
{
    ExportMetricsServiceRequest::decode(prost::bytes::Bytes::from(bytes))
}

/// A decoded metrics export request, ready for the metrics backend.
/// The second field is the record it was decoded from.
pub struct MetricRequest(pub ExportMetricsServiceRequest, pub Ghost<Seq<char>>);

impl MetricRequest {
    /// Decodes an opaque record as a metrics export request.
    pub fn decode(raw: &str) -> (r: Result<MetricRequest, SignalDecodeError>)
        ensures
            r is Ok ==> r->Ok_0.1@ == raw@,
            outcome_of(r) == decode_outcome(raw@, SignalKind::Metric),
    {
        let bytes = match decode_base64(raw) {
            Ok(bytes) => bytes,
            Err(_) => return Err(SignalDecodeError::Encoding),
        };
        match decode_metric_message(bytes) {
            Ok(request) => Ok(MetricRequest(request, Ghost(raw@))),
            Err(_) => Err(SignalDecodeError::Schema),
        }
    }
}

impl TryFrom<String> for MetricRequest {
    type Error = SignalDecodeError;

    fn try_from(value: String) -> (r: Result<MetricRequest, SignalDecodeError>)
        ensures
            r is Ok ==> r->Ok_0.1@ == value@,
            outcome_of(r) == decode_outcome(value@, SignalKind::Metric),
    {
        MetricRequest::decode(value.as_str())
    }
}

/// The decoded request has no value in specifications, so the trait-level
/// specification stays unused; `try_from` itself states its outcome.
impl vstd::std_specs::convert::TryFromSpecImpl<String> for MetricRequest {
    open spec fn obeys_try_from_spec() -> bool {
        false
    }

    open spec fn try_from_spec(v: String) -> Result<MetricRequest, SignalDecodeError> {
        arbitrary()
    }
}

} // verus!
