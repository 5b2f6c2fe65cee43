//! What the three signal codecs share: the base64 layer, the signal kinds and
//! the statement of what decoding a record as each kind comes to.
use vstd::prelude::*;

use base64::Engine;

verus! {

#[verifier::external_type_specification]
#[verifier::external_body]
pub struct ExBase64DecodeError(base64::DecodeError);

/// The bytes that standard-alphabet, padded base64 decoding yields for a
/// string, or `None` when the string is not such an encoding.
pub uninterp spec fn standard_base64_decoded(s: Seq<char>) -> Option<Seq<u8>>;

/// Relies on `base64::Engine::decode` of `BASE64_STANDARD`: it succeeds exactly
/// on well-formed encodings and its result depends on the input alone.
#[verifier::external_body]
pub(crate) fn decode_base64(s: &str) -> (r: Result<Vec<u8>, base64::DecodeError>)
    ensures
        r is Ok <==> standard_base64_decoded(s@) is Some,
        r is Ok ==> standard_base64_decoded(s@) == Some(r->Ok_0@),
{
    base64::prelude::BASE64_STANDARD.decode(s)
}

/// Why a record is not a request of a given signal kind.
#[derive(Clone, Copy, Debug, PartialEq, Eq, Structural)]
pub enum SignalDecodeError {
    /// The record is not a standard base64 encoding.
    Encoding,
    /// The decoded bytes are not a message of the expected schema.
    Schema,
}

#[verifier::external_type_specification]
#[verifier::external_body]
pub struct ExProstDecodeError(prost::DecodeError);

/// The three telemetry signal kinds, each with its own schema and backend.
#[derive(Clone, Copy, Debug, PartialEq, Eq, Structural)]
pub enum SignalKind {
    Log,
    Metric,
    Trace,
}

/// Whether `bytes` is a well-formed export request of the given kind.
pub open spec fn schema_accepts(kind: SignalKind, bytes: Seq<u8>) -> bool {
    match kind {
        SignalKind::Log => crate::logs::is_log_message(bytes),
        SignalKind::Metric => crate::metrics::is_metric_message(bytes),
        SignalKind::Trace => crate::traces::is_trace_message(bytes),
    }
}

/// What decoding `raw` as a request of `kind` comes to: base64 first, then
/// the schema of that kind.
pub open spec fn decode_outcome(raw: Seq<char>, kind: SignalKind) -> Result<(), SignalDecodeError> {
    match standard_base64_decoded(raw) {
        None => Err(SignalDecodeError::Encoding),
        Some(bytes) => if schema_accepts(kind, bytes) {
            Ok(())
        } else {
            Err(SignalDecodeError::Schema)
        },
    }
}

/// Whether `raw` decodes as a request of `kind`.
pub open spec fn decodes_as(raw: Seq<char>, kind: SignalKind) -> bool {
    decode_outcome(raw, kind) is Ok
}

/// Forgets the decoded value of a codec's result, keeping success or the error.
pub open spec fn outcome_of<T>(r: Result<T, SignalDecodeError>) -> Result<(), SignalDecodeError> {
    match r {
        Ok(_) => Ok(()),
        Err(e) => Err(e),
    }
}

} // verus!
