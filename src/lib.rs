//! Ingestion adapter that classifies base64-encoded OTLP records delivered in
//! batches and decides how each batch is dispatched to the log, metric and
//! trace backends.
pub mod classify;
pub mod codec;
pub mod handler;
pub mod kinesis;
pub mod logs;
pub mod metrics;
pub mod traces;

pub use classify::{classify, codec_priority, decode_signal, TelemetrySignal};
pub use codec::{SignalDecodeError, SignalKind};
pub use handler::{classify_batch, dispatch, plan_batch, DispatchPlan, STATUS_BAD_REQUEST, STATUS_OK};
pub use kinesis::{FirehoseRequest, FirehoseResponse, KinesisRecord};
pub use logs::LogRequest;
pub use metrics::MetricRequest;
pub use traces::TraceRequest;
