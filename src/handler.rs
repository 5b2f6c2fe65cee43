//! The dispatcher: turns a classified batch into the batch's response and the
//! list of exports and diagnostics that carry it out.
//!
//! Delivery is best effort: the response is settled before any export runs, so
//! a failed export never changes it, and nothing is retried.
use vstd::prelude::*;

use crate::classify::{classification, classify, lemma_classification_is_first_accepting, TelemetrySignal};
use crate::codec::{decodes_as, SignalKind};
use crate::kinesis::{record_payloads, FirehoseRequest, FirehoseResponse, KinesisRecord};

verus! {

/// Status of a batch with at least one classified record.
pub const STATUS_OK: u16 = 200;

/// Status of a batch in which no record classified.
pub const STATUS_BAD_REQUEST: u16 = 400;

/// The message of a rejected batch.
pub open spec fn all_failed_text() -> Seq<char> {
    "All records failed to parse"@
}

/// What to do for one batch: the response to send, and beforehand the signals
/// to export, each to the backend of its kind, and the unparseable records to
/// report.
pub struct DispatchPlan {
    pub status: u16,
    pub response: FirehoseResponse,
    pub exports: Vec<TelemetrySignal>,
    pub diagnostics: Vec<String>,
}

/// The classified signals among `signals`, in order.
pub open spec fn actionable(signals: Seq<TelemetrySignal>) -> Seq<TelemetrySignal>
    decreases signals.len(),
{
    if signals.len() == 0 {
        seq![]
    } else if signals.last().kind() is Some {
        actionable(signals.drop_last()).push(signals.last())
    } else {
        actionable(signals.drop_last())
    }
}

/// The records held by the unparseable entries of `signals`, in order.
pub open spec fn unparseable_payloads(signals: Seq<TelemetrySignal>) -> Seq<Seq<char>>
    decreases signals.len(),
{
    if signals.len() == 0 {
        seq![]
    } else if signals.last() is UnparseableRecord {
        unparseable_payloads(signals.drop_last()).push(signals.last()->UnparseableRecord_0@)
    } else {
        unparseable_payloads(signals.drop_last())
    }
}

/// The kinds of a sequence of classified signals.
pub open spec fn kinds_of(signals: Seq<TelemetrySignal>) -> Seq<SignalKind> {
    signals.map_values(|s: TelemetrySignal| s.kind()->Some_0)
}

/// The records that a sequence of signals was classified from.
pub open spec fn sources(signals: Seq<TelemetrySignal>) -> Seq<Seq<char>> {
    signals.map_values(|s: TelemetrySignal| s.source())
}

/// The views of a sequence of strings.
pub open spec fn texts(strings: Seq<String>) -> Seq<Seq<char>> {
    strings.map_values(|s: String| s@)
}

/// Whether at least one payload of a batch classifies.
pub open spec fn batch_accepted(payloads: Seq<Seq<char>>) -> bool {
    exists|i: int| 0 <= i < payloads.len() && (#[trigger] classification(payloads[i])) is Some
}

/// The kinds of the payloads that classify, in order.
pub open spec fn accepted_kinds(payloads: Seq<Seq<char>>) -> Seq<SignalKind>
    decreases payloads.len(),
{
    if payloads.len() == 0 {
        seq![]
    } else if classification(payloads.last()) is Some {
        accepted_kinds(payloads.drop_last()).push(classification(payloads.last())->Some_0)
    } else {
        accepted_kinds(payloads.drop_last())
    }
}

/// The payloads that some codec accepts, in order.
pub open spec fn accepted_payloads(payloads: Seq<Seq<char>>) -> Seq<Seq<char>>
    decreases payloads.len(),
{
    if payloads.len() == 0 {
        seq![]
    } else if classification(payloads.last()) is Some {
        accepted_payloads(payloads.drop_last()).push(payloads.last())
    } else {
        accepted_payloads(payloads.drop_last())
    }
}

/// The payloads that no codec accepts, in order.
pub open spec fn rejected_payloads(payloads: Seq<Seq<char>>) -> Seq<Seq<char>>
    decreases payloads.len(),
{
    if payloads.len() == 0 {
        seq![]
    } else if classification(payloads.last()) is None {
        rejected_payloads(payloads.drop_last()).push(payloads.last())
    } else {
        rejected_payloads(payloads.drop_last())
    }
}

/// Decides what to do with a classified batch. When no signal is classified
/// the batch is rejected and nothing is exported or reported. Otherwise every
/// classified signal is exported, in order, every unparseable record is
/// reported, and the batch is accepted whatever the exports come to.
pub fn dispatch(request_id: String, timestamp: usize, signals: Vec<TelemetrySignal>) -> (r: DispatchPlan)
    ensures
        r.response.request_id == request_id,
        r.response.timestamp == timestamp,
        actionable(signals@).len() == 0 ==> {
            &&& r.status == STATUS_BAD_REQUEST
            &&& r.response.error_message is Some
            &&& r.response.error_message->Some_0@ == all_failed_text()
            &&& r.exports@.len() == 0
            &&& r.diagnostics@.len() == 0
        },
        actionable(signals@).len() > 0 ==> {
            &&& r.status == STATUS_OK
            &&& r.response.error_message is None
            &&& r.exports@ == actionable(signals@)
            &&& texts(r.diagnostics@) == unparseable_payloads(signals@)
        },
{
    let ghost all = signals@;
    let mut rest = signals;
    let mut exports: Vec<TelemetrySignal> = Vec::new();
    let mut diagnostics: Vec<String> = Vec::new();
    assert(all.skip(0) =~= all);
    assert(all.take(0) =~= seq![]);
    while rest.len() > 0
        invariant
            rest@.len() <= all.len(),
            rest@ == all.skip(all.len() - rest@.len()),
            exports@ == actionable(all.take(all.len() - rest@.len())),
            texts(diagnostics@) == unparseable_payloads(all.take(all.len() - rest@.len())),
        decreases rest@.len(),
    {
        let ghost k = all.len() - rest@.len();
        let signal = rest.remove(0);
        assert(signal == all[k]);
        assert(rest@ =~= all.skip(k + 1));
        assert(all.take(k + 1).drop_last() =~= all.take(k));
        assert(all.take(k + 1).last() == all[k]);
        match signal {
            TelemetrySignal::UnparseableRecord(payload) => {
                let ghost before = diagnostics@;
                diagnostics.push(payload);
                assert(texts(diagnostics@) =~= texts(before).push(payload@));
            },
            other => {
                exports.push(other);
            },
        }
    }
    assert(all.take(all.len() as int) =~= all);
    if exports.len() == 0 {
        DispatchPlan {
            status: STATUS_BAD_REQUEST,
            response: FirehoseResponse {
                request_id,
                timestamp,
                error_message: Some("All records failed to parse".to_owned()),
            },
            exports: Vec::new(),
            diagnostics: Vec::new(),
        }
    } else {
        DispatchPlan {
            status: STATUS_OK,
            response: FirehoseResponse { request_id, timestamp, error_message: None },
            exports,
            diagnostics,
        }
    }
}

/// Whether `s` is what classifying `raw` gives.
pub open spec fn classified_from(s: TelemetrySignal, raw: Seq<char>) -> bool {
    &&& s.kind() == classification(raw)
    &&& s.source() == raw
}

/// Classifies every record of a batch, in order.
pub fn classify_batch(records: &Vec<KinesisRecord>) -> (r: Vec<TelemetrySignal>)
    ensures
        r@.len() == records@.len(),
        forall|i: int| 0 <= i < records@.len() ==> classified_from(#[trigger] r@[i], records@[i].data@),
{
    let mut signals: Vec<TelemetrySignal> = Vec::new();
    let mut i: usize = 0;
    while i < records.len()
        invariant
            i <= records@.len(),
            signals@.len() == i,
            forall|j: int| 0 <= j < i ==> classified_from(#[trigger] signals@[j], records@[j].data@),
        decreases records@.len() - i,
    {
        signals.push(classify(&records[i].data));
        i = i + 1;
    }
    signals
}

/// The dispatcher's view of a batch agrees with the classification of its
/// payloads: the same records are exported, in order and with the same kinds,
/// the same records reported, and the batch is accepted exactly when some
/// payload classifies.
pub proof fn lemma_classified_batch(signals: Seq<TelemetrySignal>, payloads: Seq<Seq<char>>)
    requires
        signals.len() == payloads.len(),
        forall|i: int| 0 <= i < signals.len() ==> classified_from(#[trigger] signals[i], payloads[i]),
    ensures
        kinds_of(actionable(signals)) == accepted_kinds(payloads),
        sources(actionable(signals)) == accepted_payloads(payloads),
        unparseable_payloads(signals) == rejected_payloads(payloads),
        actionable(signals).len() > 0 <==> batch_accepted(payloads),
    decreases signals.len(),
{
    if signals.len() == 0 {
        assert(kinds_of(actionable(signals)) =~= accepted_kinds(payloads));
        assert(sources(actionable(signals)) =~= accepted_payloads(payloads));
    } else {
        let n = signals.len() - 1;
        let (s0, p0) = (signals.drop_last(), payloads.drop_last());
        assert forall|i: int| 0 <= i < s0.len() implies classified_from(#[trigger] s0[i], p0[i]) by {
            assert(s0[i] == signals[i] && p0[i] == payloads[i]);
        }
        lemma_classified_batch(s0, p0);
        assert(classified_from(signals[n], payloads[n]));
        if signals.last().kind() is Some {
            assert(kinds_of(actionable(signals)) =~= kinds_of(actionable(s0)).push(
                signals.last().kind()->Some_0,
            ));
            assert(sources(actionable(signals)) =~= sources(actionable(s0)).push(signals.last().source()));
            assert(classification(payloads[n]) is Some);
        } else {
            if batch_accepted(payloads) {
                let i = choose|i: int| 0 <= i < payloads.len() && (#[trigger] classification(payloads[i])) is Some;
                assert(i != n);
                assert(p0[i] == payloads[i]);
            }
        }
        if batch_accepted(p0) {
            let i = choose|i: int| 0 <= i < p0.len() && (#[trigger] classification(p0[i])) is Some;
            assert(p0[i] == payloads[i]);
        }
    }
}

/// A batch whose every record fails all three codecs, the empty batch
/// included, is not accepted: `plan_batch` rejects it with the fixed message
/// and exports nothing.
pub proof fn lemma_unparseable_batch_rejected(payloads: Seq<Seq<char>>)
    requires
        forall|i: int, k: SignalKind| 0 <= i < payloads.len() ==> !#[trigger] decodes_as(payloads[i], k),
    ensures
        !batch_accepted(payloads),
{
    assert forall|i: int| 0 <= i < payloads.len() implies (#[trigger] classification(payloads[i])) is None by {
        lemma_classification_is_first_accepting(payloads[i]);
        assert forall|k: SignalKind| !#[trigger] decodes_as(payloads[i], k) by {}
    }
}

/// Decides what to do with one inbound batch: classifies every record, then
/// dispatches. The batch is accepted, with no error message and status 200,
/// exactly when some record classifies; the exports are then the classified
/// records in order, each with its kind, and the diagnostics the others. A batch in which no
/// record classifies, the empty one included, gets status 400 and the fixed
/// message, and nothing is exported.
pub fn plan_batch(request: FirehoseRequest) -> (r: DispatchPlan)
    ensures
        r.response.request_id == request.request_id,
        r.response.timestamp == request.timestamp,
        batch_accepted(record_payloads(request.records@)) <==> r.response.error_message is None,
        !batch_accepted(record_payloads(request.records@)) ==> {
            &&& r.status == STATUS_BAD_REQUEST
            &&& r.response.error_message->Some_0@ == all_failed_text()
            &&& r.exports@.len() == 0
            &&& r.diagnostics@.len() == 0
        },
        batch_accepted(record_payloads(request.records@)) ==> {
            &&& r.status == STATUS_OK
            &&& kinds_of(r.exports@) == accepted_kinds(record_payloads(request.records@))
            &&& sources(r.exports@) == accepted_payloads(record_payloads(request.records@))
            &&& texts(r.diagnostics@) == rejected_payloads(record_payloads(request.records@))
        },
{
    let signals = classify_batch(&request.records);
    proof {
        let payloads = record_payloads(request.records@);
        assert forall|i: int| 0 <= i < signals@.len() implies classified_from(
            #[trigger] signals@[i],
            payloads[i],
        ) by {
            assert(classified_from(signals@[i], request.records@[i].data@));
        }
        lemma_classified_batch(signals@, payloads);
    }
    dispatch(request.request_id, request.timestamp, signals)
}

} // verus!
