use base64::prelude::BASE64_STANDARD;
use base64::Engine;
use firehose_otlp::{
    classify, classify_batch, codec_priority, decode_signal, dispatch, plan_batch, FirehoseRequest,
    KinesisRecord, SignalKind, TelemetrySignal, STATUS_BAD_REQUEST, STATUS_OK,
};
use opentelemetry_proto::tonic::collector::logs::v1::ExportLogsServiceRequest;
use opentelemetry_proto::tonic::collector::metrics::v1::ExportMetricsServiceRequest;
use opentelemetry_proto::tonic::collector::trace::v1::ExportTraceServiceRequest;
use opentelemetry_proto::tonic::logs::v1::ResourceLogs;
use opentelemetry_proto::tonic::metrics::v1::{Metric, ResourceMetrics, ScopeMetrics};
use opentelemetry_proto::tonic::trace::v1::{ResourceSpans, ScopeSpans, Span};
use prost::Message;

const ALL_FAILED: &str = "All records failed to parse";

fn valid_log_b64() -> String {
    let request = ExportLogsServiceRequest {
        resource_logs: vec![ResourceLogs::default()],
    };
    BASE64_STANDARD.encode(request.encode_to_vec())
}

/// A metrics request that the logs schema refuses: a metric's name has a
/// wire type that a log record's first field cannot have.
fn metric_only_b64() -> String {
    let request = ExportMetricsServiceRequest {
        resource_metrics: vec![ResourceMetrics {
            scope_metrics: vec![ScopeMetrics {
                metrics: vec![Metric {
                    name: "m".to_string(),
                    ..Default::default()
                }],
                ..Default::default()
            }],
            ..Default::default()
        }],
    };
    BASE64_STANDARD.encode(request.encode_to_vec())
}

/// A traces request that both other schemas refuse: its trace id is not
/// valid UTF-8, so it is no metric name either.
fn trace_only_b64() -> String {
    let request = ExportTraceServiceRequest {
        resource_spans: vec![ResourceSpans {
            scope_spans: vec![ScopeSpans {
                spans: vec![Span {
                    trace_id: vec![0xff; 16],
                    ..Default::default()
                }],
                ..Default::default()
            }],
            ..Default::default()
        }],
    };
    BASE64_STANDARD.encode(request.encode_to_vec())
}

fn batch(request_id: &str, timestamp: usize, data: &[&str]) -> FirehoseRequest {
    FirehoseRequest {
        request_id: request_id.to_string(),
        timestamp,
        records: data
            .iter()
            .map(|d| KinesisRecord { data: d.to_string() })
            .collect(),
    }
}

#[test]
fn test_handler_with_invalid_records() {
    let plan = plan_batch(batch("test-id", 123456789, &["invalid-data"]));

    assert_eq!(plan.status, STATUS_BAD_REQUEST);
    assert_eq!(plan.response.request_id, "test-id");
    assert_eq!(plan.response.timestamp, 123456789);
    assert_eq!(plan.response.error_message.as_deref(), Some(ALL_FAILED));
}

#[test]
fn single_valid_log_record_is_accepted() {
    let log = valid_log_b64();
    let plan = plan_batch(batch("r1", 100, &[&log]));

    assert_eq!(plan.status, 200);
    assert_eq!(plan.response.request_id, "r1");
    assert_eq!(plan.response.timestamp, 100);
    assert_eq!(plan.response.error_message, None);
    assert_eq!(plan.exports.len(), 1);
    assert!(matches!(plan.exports[0], TelemetrySignal::Log(_)));
    assert!(plan.diagnostics.is_empty());
}

#[test]
fn empty_batch_is_rejected() {
    let plan = plan_batch(batch("r2", 7, &[]));

    assert_eq!(plan.status, 400);
    assert_eq!(plan.response.request_id, "r2");
    assert_eq!(plan.response.timestamp, 7);
    assert_eq!(plan.response.error_message.as_deref(), Some(ALL_FAILED));
    assert!(plan.exports.is_empty());
    assert!(plan.diagnostics.is_empty());
}

#[test]
fn valid_log_and_garbage_record() {
    let log = valid_log_b64();
    let plan = plan_batch(batch("r3", 9, &[&log, "garbage!"]));

    assert_eq!(plan.status, STATUS_OK);
    assert_eq!(plan.response.error_message, None);
    assert_eq!(plan.exports.len(), 1);
    assert!(matches!(plan.exports[0], TelemetrySignal::Log(_)));
    assert_eq!(plan.diagnostics, vec!["garbage!".to_string()]);
}

#[test]
fn all_garbage_batch_exports_nothing() {
    let schema_garbage = BASE64_STANDARD.encode("not valid protobuf");
    let plan = plan_batch(batch("r4", 1, &["invalid-data", &schema_garbage, "%%%"]));

    assert_eq!(plan.status, STATUS_BAD_REQUEST);
    assert_eq!(plan.response.error_message.as_deref(), Some(ALL_FAILED));
    assert!(plan.exports.is_empty());
    assert!(plan.diagnostics.is_empty());
}

#[test]
fn mixed_batch_exports_every_kind_in_order() {
    let (log, metric, trace) = (valid_log_b64(), metric_only_b64(), trace_only_b64());
    let plan = plan_batch(batch("r5", 2, &["bad", &trace, &metric, "worse", &log]));

    assert_eq!(plan.status, STATUS_OK);
    assert_eq!(plan.response.error_message, None);
    let kinds: Vec<Option<SignalKind>> = plan.exports.iter().map(|s| s.signal_kind()).collect();
    assert_eq!(
        kinds,
        vec![Some(SignalKind::Trace), Some(SignalKind::Metric), Some(SignalKind::Log)]
    );
    assert_eq!(plan.diagnostics, vec!["bad".to_string(), "worse".to_string()]);
}

#[test]
fn classify_picks_each_kind() {
    assert!(matches!(classify(&valid_log_b64()), TelemetrySignal::Log(_)));
    assert!(matches!(classify(&metric_only_b64()), TelemetrySignal::Metric(_)));
    assert!(matches!(classify(&trace_only_b64()), TelemetrySignal::Trace(_)));
}

#[test]
fn classify_keeps_unparseable_record() {
    let schema_garbage = BASE64_STANDARD.encode("not valid protobuf");
    match classify(&schema_garbage) {
        TelemetrySignal::UnparseableRecord(s) => assert_eq!(s, schema_garbage),
        _ => panic!("expected an unparseable record"),
    }
    match classify(&String::new()) {
        TelemetrySignal::Log(_) => {}
        _ => panic!("the empty record is an empty logs request"),
    }
}

#[test]
fn classify_is_deterministic() {
    for raw in [valid_log_b64(), metric_only_b64(), trace_only_b64(), "junk".to_string()] {
        assert_eq!(classify(&raw).signal_kind(), classify(&raw).signal_kind());
    }
}

#[test]
fn log_wins_when_several_schemas_accept() {
    let log = valid_log_b64();
    assert!(decode_signal(&log, SignalKind::Log).is_some());
    assert!(decode_signal(&log, SignalKind::Metric).is_some());
    assert!(decode_signal(&log, SignalKind::Trace).is_some());
    assert_eq!(classify(&log).signal_kind(), Some(SignalKind::Log));

    let metric = metric_only_b64();
    assert!(decode_signal(&metric, SignalKind::Log).is_none());
    assert!(decode_signal(&metric, SignalKind::Trace).is_some());
    assert_eq!(classify(&metric).signal_kind(), Some(SignalKind::Metric));
}

#[test]
fn priority_is_logs_metrics_traces() {
    assert_eq!(
        codec_priority(),
        vec![SignalKind::Log, SignalKind::Metric, SignalKind::Trace]
    );
}

#[test]
fn classify_batch_keeps_order() {
    let records = batch("r6", 0, &["x", &metric_only_b64()]).records;
    let signals = classify_batch(&records);
    assert_eq!(signals.len(), 2);
    assert_eq!(signals[0].signal_kind(), None);
    assert_eq!(signals[1].signal_kind(), Some(SignalKind::Metric));
}

#[test]
fn dispatch_without_signals_rejects() {
    let plan = dispatch(
        "r7".to_string(),
        42,
        vec![TelemetrySignal::UnparseableRecord("a".to_string())],
    );
    assert_eq!(plan.status, STATUS_BAD_REQUEST);
    assert_eq!(plan.response.request_id, "r7");
    assert_eq!(plan.response.timestamp, 42);
    assert_eq!(plan.response.error_message.as_deref(), Some(ALL_FAILED));
    assert!(plan.exports.is_empty());
    assert!(plan.diagnostics.is_empty());
}

#[test]
fn dispatch_reports_every_unparseable_record() {
    let log = classify(&valid_log_b64());
    let plan = dispatch(
        "r8".to_string(),
        43,
        vec![
            TelemetrySignal::UnparseableRecord("a".to_string()),
            log,
            TelemetrySignal::UnparseableRecord("b".to_string()),
        ],
    );
    assert_eq!(plan.status, STATUS_OK);
    assert_eq!(plan.response.error_message, None);
    assert_eq!(plan.exports.len(), 1);
    assert_eq!(plan.diagnostics, vec!["a".to_string(), "b".to_string()]);
}

#[test]
fn largest_timestamp_passes_through() {
    let plan = plan_batch(batch("r9", usize::MAX, &[&valid_log_b64()]));
    assert_eq!(plan.response.timestamp, usize::MAX);
    assert_eq!(plan.status, STATUS_OK);
}
