//! The classifier: tries the codecs in a fixed priority order and keeps the
//! first that accepts a record.
use vstd::prelude::*;

use crate::codec::{decodes_as, outcome_of, schema_accepts, standard_base64_decoded, SignalKind};
use crate::logs::LogRequest;
use crate::metrics::MetricRequest;
use crate::traces::TraceRequest;

verus! {

/// One record after classification.
pub enum TelemetrySignal {
    Log(LogRequest),
    Metric(MetricRequest),
    Trace(TraceRequest),
    /// No codec accepted the record; it holds the record as received.
    UnparseableRecord(String),
}

impl TelemetrySignal {
    /// The kind of a classified signal, or `None` for an unparseable record.
    pub open spec fn kind(&self) -> Option<SignalKind> {
        match self {
            TelemetrySignal::Log(_) => Some(SignalKind::Log),
            TelemetrySignal::Metric(_) => Some(SignalKind::Metric),
            TelemetrySignal::Trace(_) => Some(SignalKind::Trace),
            TelemetrySignal::UnparseableRecord(_) => None,
        }
    }

    /// The record that this signal was classified from.
    pub open spec fn source(&self) -> Seq<char> {
        match self {
            TelemetrySignal::Log(r) => r.1@,
            TelemetrySignal::Metric(r) => r.1@,
            TelemetrySignal::Trace(r) => r.1@,
            TelemetrySignal::UnparseableRecord(s) => s@,
        }
    }

    /// The kind of this signal, or `None` for an unparseable record.
    pub fn signal_kind(&self) -> (r: Option<SignalKind>)
        ensures
            r == self.kind(),
    {
        match self {
            TelemetrySignal::Log(_) => Some(SignalKind::Log),
            TelemetrySignal::Metric(_) => Some(SignalKind::Metric),
            TelemetrySignal::Trace(_) => Some(SignalKind::Trace),
            TelemetrySignal::UnparseableRecord(_) => None,
        }
    }
}

/// The order in which the codecs are tried. It settles which kind a record
/// gets if it ever decodes under more than one schema.
pub open spec fn attempt_order() -> Seq<SignalKind> {
    seq![SignalKind::Log, SignalKind::Metric, SignalKind::Trace]
}

/// The first kind in `order` under which `raw` decodes.
pub open spec fn first_decoding(raw: Seq<char>, order: Seq<SignalKind>) -> Option<SignalKind>
    decreases order.len(),
{
    if order.len() == 0 {
        None
    } else if decodes_as(raw, order[0]) {
        Some(order[0])
    } else {
        first_decoding(raw, order.drop_first())
    }
}

/// The kind that a record classifies as, or `None` when no codec accepts it.
pub open spec fn classification(raw: Seq<char>) -> Option<SignalKind> {
    first_decoding(raw, attempt_order())
}

/// The codec priority as a list, logs first.
pub fn codec_priority() -> (r: Vec<SignalKind>)
    ensures
        r@ == attempt_order(),
{
    let r = vec![SignalKind::Log, SignalKind::Metric, SignalKind::Trace];
    assert(r@ =~= attempt_order());
    r
}

/// Decodes `raw` with the codec of `kind`.
pub fn decode_signal(raw: &str, kind: SignalKind) -> (r: Option<TelemetrySignal>)
    ensures
        r is Some <==> decodes_as(raw@, kind),
        r is Some ==> r->Some_0.kind() == Some(kind),
        r is Some ==> r->Some_0.source() == raw@,
{
    match kind {
        SignalKind::Log => {
            let d = LogRequest::decode(raw);
            assert(outcome_of(d) is Ok <==> d is Ok);
            match d {
                Ok(request) => Some(TelemetrySignal::Log(request)),
                Err(_) => None,
            }
        },
        SignalKind::Metric => {
            let d = MetricRequest::decode(raw);
            assert(outcome_of(d) is Ok <==> d is Ok);
            match d {
                Ok(request) => Some(TelemetrySignal::Metric(request)),
                Err(_) => None,
            }
        },
        SignalKind::Trace => {
            let d = TraceRequest::decode(raw);
            assert(outcome_of(d) is Ok <==> d is Ok);
            match d {
                Ok(request) => Some(TelemetrySignal::Trace(request)),
                Err(_) => None,
            }
        },
    }
}

/// Classifies one record: the first codec in priority order that accepts it
/// decides its kind; a record that none accepts is kept as unparseable.
pub fn classify(raw: &String) -> (r: TelemetrySignal)
    ensures
        r.kind() == classification(raw@),
        r.source() == raw@,
{
    let order = codec_priority();
    let mut i: usize = 0;
    assert(attempt_order().skip(0) =~= attempt_order());
    while i < order.len()
        invariant
            i <= order@.len(),
            order@ == attempt_order(),
            classification(raw@) == first_decoding(raw@, attempt_order().skip(i as int)),
        decreases order@.len() - i,
    {
        let kind = order[i];
        assert(attempt_order().skip(i as int)[0] == kind);
        assert(attempt_order().skip(i as int).drop_first() =~= attempt_order().skip(i + 1));
        match decode_signal(raw.as_str(), kind) {
            Some(signal) => return signal,
            None => {},
        }
        i = i + 1;
    }
    TelemetrySignal::UnparseableRecord(raw.clone())
}

/// A record classifies as a kind only if that kind's codec accepts it and
/// every codec before it in the attempt order rejects it; and a record that
/// some codec accepts is never unparseable.
pub proof fn lemma_classification_is_first_accepting(raw: Seq<char>)
    ensures
        forall|i: int|
            0 <= i < attempt_order().len() ==> (classification(raw) == Some(attempt_order()[i])
                <==> (decodes_as(raw, #[trigger] attempt_order()[i]) && forall|j: int|
                0 <= j < i ==> !decodes_as(raw, attempt_order()[j]))),
        classification(raw) is None <==> forall|k: SignalKind| !#[trigger] decodes_as(raw, k),
{
    let order = attempt_order();
    assert(order.drop_first() =~= seq![SignalKind::Metric, SignalKind::Trace]);
    assert(order.drop_first().drop_first() =~= seq![SignalKind::Trace]);
    assert(order.drop_first().drop_first().drop_first() =~= Seq::<SignalKind>::empty());
    reveal_with_fuel(first_decoding, 4);
    if classification(raw) is None {
        assert forall|k: SignalKind| !#[trigger] decodes_as(raw, k) by {
            match k {
                SignalKind::Log => {},
                SignalKind::Metric => {},
                SignalKind::Trace => {},
            }
        }
    }
    if forall|k: SignalKind| !#[trigger] decodes_as(raw, k) {
        assert(!decodes_as(raw, SignalKind::Log));
        assert(!decodes_as(raw, SignalKind::Metric));
        assert(!decodes_as(raw, SignalKind::Trace));
    }
}

/// A record that the log codec accepts classifies as a log, whatever the
/// other codecs make of it.
pub proof fn lemma_log_takes_priority(raw: Seq<char>)
    requires
        decodes_as(raw, SignalKind::Log),
    ensures
        classification(raw) == Some(SignalKind::Log),
{
    lemma_classification_is_first_accepting(raw);
    assert(attempt_order()[0] == SignalKind::Log);
}

/// A record that the metric codec accepts and the log codec rejects
/// classifies as a metric, whatever the trace codec makes of it.
pub proof fn lemma_metric_before_trace(raw: Seq<char>)
    requires
        !decodes_as(raw, SignalKind::Log),
        decodes_as(raw, SignalKind::Metric),
    ensures
        classification(raw) == Some(SignalKind::Metric),
{
    lemma_classification_is_first_accepting(raw);
    assert(attempt_order()[0] == SignalKind::Log);
    assert(attempt_order()[1] == SignalKind::Metric);
}

/// Classification is a function of which codecs accept a record: two records
/// that the same codecs accept classify alike.
pub proof fn lemma_classification_depends_on_codecs(a: Seq<char>, b: Seq<char>)
    requires
        forall|k: SignalKind| decodes_as(a, k) == decodes_as(b, k),
    ensures
        classification(a) == classification(b),
{
    assert(decodes_as(a, SignalKind::Log) == decodes_as(b, SignalKind::Log));
    assert(decodes_as(a, SignalKind::Metric) == decodes_as(b, SignalKind::Metric));
    assert(decodes_as(a, SignalKind::Trace) == decodes_as(b, SignalKind::Trace));
    let order = attempt_order();
    assert(order.drop_first() =~= seq![SignalKind::Metric, SignalKind::Trace]);
    assert(order.drop_first().drop_first() =~= seq![SignalKind::Trace]);
    assert(order.drop_first().drop_first().drop_first() =~= Seq::<SignalKind>::empty());
    reveal_with_fuel(first_decoding, 4);
}

/// A record that is valid base64 but whose bytes no schema accepts is
/// unparseable.
pub proof fn lemma_schema_rejection_is_unparseable(raw: Seq<char>)
    requires
        standard_base64_decoded(raw) is Some,
        forall|k: SignalKind| !#[trigger] schema_accepts(k, standard_base64_decoded(raw)->Some_0),
    ensures
        classification(raw) is None,
{
    lemma_classification_is_first_accepting(raw);
    assert forall|k: SignalKind| !#[trigger] decodes_as(raw, k) by {
        assert(!schema_accepts(k, standard_base64_decoded(raw)->Some_0));
    }
}

} // verus!
