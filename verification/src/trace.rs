//! Whole-run properties of the order workflow: what a complete order
//! publishes, seen as a fold of the step relation over the sequence of
//! observed events.

use vstd::prelude::*;
use crate::workflow::{
    spec_action, spec_dropped_msg, spec_emit, spec_failed_status_msg, spec_failed_transport_msg,
    spec_next, spec_vending_msg, EmitView, OrderIntent, OrderPhase, WorkflowEvent,
};

verus! {

/// The phase after observing a whole sequence of events.
pub open spec fn run_phase(phase: OrderPhase, es: Seq<WorkflowEvent>) -> OrderPhase
    decreases es.len(),
{
    if es.len() == 0 {
        phase
    } else {
        run_phase(spec_next(phase, es[0]), es.skip(1))
    }
}

/// An optional emission as a sequence of zero or one entries.
pub open spec fn emit_seq(o: Option<EmitView>) -> Seq<EmitView> {
    match o {
        Option::Some(v) => seq![v],
        Option::None => Seq::empty(),
    }
}

/// Everything a run publishes, in order.
pub open spec fn run_emits(intent: OrderIntent, phase: OrderPhase, es: Seq<WorkflowEvent>) -> Seq<
    EmitView,
>
    decreases es.len(),
{
    if es.len() == 0 {
        Seq::empty()
    } else {
        emit_seq(spec_emit(intent, phase, es[0])) + run_emits(
            intent,
            spec_next(phase, es[0]),
            es.skip(1),
        )
    }
}

/// How many dispense requests a run asks the surrounding process to send.
pub open spec fn run_dispense_count(
    intent: OrderIntent,
    phase: OrderPhase,
    es: Seq<WorkflowEvent>,
) -> nat
    decreases es.len(),
{
    if es.len() == 0 {
        0
    } else {
        (if spec_action(intent, phase, es[0]) is SendDispense {
            1nat
        } else {
            0nat
        }) + run_dispense_count(intent, spec_next(phase, es[0]), es.skip(1))
    }
}

/// Phases before any identity has resolved: cancellation is still honored
/// and no dispense request has been issued.
pub open spec fn pre_identity(phase: OrderPhase) -> bool {
    phase is Scanning || phase is CancelCheck || phase is Resolving
}

/// Phases at or past the vend: an identity resolved and the one dispense
/// request was issued.
pub open spec fn vend_reached(phase: OrderPhase) -> bool {
    phase is Dispensing || phase is Holding || phase == OrderPhase::Done(true)
}

/// How many `Vending` entries a published sequence holds.
pub open spec fn count_vending(em: Seq<EmitView>) -> nat
    decreases em.len(),
{
    if em.len() == 0 {
        0
    } else {
        (if em[0] is Vending {
            1nat
        } else {
            0nat
        }) + count_vending(em.skip(1))
    }
}

/// How many terminal (`Finished`) entries a published sequence holds.
pub open spec fn count_finished(em: Seq<EmitView>) -> nat
    decreases em.len(),
{
    if em.len() == 0 {
        0
    } else {
        (if em[0] is Finished {
            1nat
        } else {
            0nat
        }) + count_finished(em.skip(1))
    }
}

/// How many `Finished(true)` entries a published sequence holds.
pub open spec fn count_finished_true(em: Seq<EmitView>) -> nat
    decreases em.len(),
{
    if em.len() == 0 {
        0
    } else {
        (if em[0] == EmitView::Finished(true) {
            1nat
        } else {
            0nat
        }) + count_finished_true(em.skip(1))
    }
}

/// Splitting a run at any point composes: the tail runs from the phase
/// the head reached, and the publications concatenate.
pub proof fn lemma_run_append(
    intent: OrderIntent,
    phase: OrderPhase,
    a: Seq<WorkflowEvent>,
    b: Seq<WorkflowEvent>,
)
    ensures
        run_phase(phase, a + b) == run_phase(run_phase(phase, a), b),
        run_emits(intent, phase, a + b) == run_emits(intent, phase, a) + run_emits(
            intent,
            run_phase(phase, a),
            b,
        ),
        run_dispense_count(intent, phase, a + b) == run_dispense_count(intent, phase, a)
            + run_dispense_count(intent, run_phase(phase, a), b),
    decreases a.len(),
{
    if a.len() == 0 {
        assert(a + b =~= b);
        assert(run_emits(intent, phase, a) + run_emits(intent, run_phase(phase, a), b) =~=
        run_emits(intent, phase, b));
    } else {
        let next = spec_next(phase, a[0]);
        assert((a + b).skip(1) =~= a.skip(1) + b);
        assert((a + b)[0] == a[0]);
        lemma_run_append(intent, next, a.skip(1), b);
        assert(run_emits(intent, phase, a + b) =~= run_emits(intent, phase, a) + run_emits(
            intent,
            run_phase(phase, a),
            b,
        ));
    }
}

/// A workflow that has left the pre-identity phases never re-enters them.
pub proof fn lemma_no_return_to_scan(phase: OrderPhase, es: Seq<WorkflowEvent>)
    requires
        !pre_identity(phase),
    ensures
        !pre_identity(run_phase(phase, es)),
    decreases es.len(),
{
    if es.len() > 0 {
        lemma_no_return_to_scan(spec_next(phase, es[0]), es.skip(1));
    }
}

/// While the workflow stays short of an identity, nothing is published
/// and no dispense request is issued: empty polls, cancellation checks
/// that come back clear, and failed association resolutions are absorbed
/// silently.
pub proof fn lemma_scan_phase_silent(
    intent: OrderIntent,
    phase: OrderPhase,
    es: Seq<WorkflowEvent>,
)
    requires
        pre_identity(phase),
        pre_identity(run_phase(phase, es)),
    ensures
        run_emits(intent, phase, es) =~= Seq::<EmitView>::empty(),
        run_dispense_count(intent, phase, es) == 0,
    decreases es.len(),
{
    if es.len() > 0 {
        let next = spec_next(phase, es[0]);
        if !pre_identity(next) {
            lemma_no_return_to_scan(next, es.skip(1));
        }
        lemma_scan_phase_silent(intent, next, es.skip(1));
    }
}

/// A finished workflow is silent: no event moves it, nothing more is
/// published, and no dispense request is ever issued again.
pub proof fn lemma_done_silent(intent: OrderIntent, phase: OrderPhase, es: Seq<WorkflowEvent>)
    requires
        phase is Done,
    ensures
        run_phase(phase, es) == phase,
        run_emits(intent, phase, es) =~= Seq::<EmitView>::empty(),
        run_dispense_count(intent, phase, es) == 0,
    decreases es.len(),
{
    if es.len() > 0 {
        lemma_done_silent(intent, spec_next(phase, es[0]), es.skip(1));
    }
}

} // verus!

verus! {

/// Bookkeeping across one run: `Vending` is published exactly on reaching
/// the vend, a dispense request is issued exactly there too, `Finished`
/// is published exactly on reaching the terminal phase, and
/// `Finished(true)` exactly on reaching the terminal phase of an
/// attempted dispense.
pub proof fn lemma_run_accounting(intent: OrderIntent, phase: OrderPhase, es: Seq<WorkflowEvent>)
    ensures
        count_vending(run_emits(intent, phase, es)) + (if vend_reached(phase) {
            1int
        } else {
            0int
        }) == (if vend_reached(run_phase(phase, es)) {
            1int
        } else {
            0int
        }),
        run_dispense_count(intent, phase, es) + (if vend_reached(phase) {
            1int
        } else {
            0int
        }) == (if vend_reached(run_phase(phase, es)) {
            1int
        } else {
            0int
        }),
        count_finished(run_emits(intent, phase, es)) + (if phase is Done {
            1int
        } else {
            0int
        }) == (if run_phase(phase, es) is Done {
            1int
        } else {
            0int
        }),
        count_finished_true(run_emits(intent, phase, es)) + (if phase == OrderPhase::Done(true) {
            1int
        } else {
            0int
        }) == (if run_phase(phase, es) == OrderPhase::Done(true) {
            1int
        } else {
            0int
        }),
    decreases es.len(),
{
    if es.len() > 0 {
        let next = spec_next(phase, es[0]);
        let head = emit_seq(spec_emit(intent, phase, es[0]));
        let tail = run_emits(intent, next, es.skip(1));
        lemma_run_accounting(intent, next, es.skip(1));
        lemma_count_append(head, tail);
        assert(run_emits(intent, phase, es) == head + tail);
        assert(count_vending(Seq::<EmitView>::empty()) == 0);
        assert(count_finished(Seq::<EmitView>::empty()) == 0);
        assert(count_finished_true(Seq::<EmitView>::empty()) == 0);
        match spec_emit(intent, phase, es[0]) {
            Option::Some(v) => {
                assert(head =~= seq![v]);
                assert(seq![v].skip(1) =~= Seq::<EmitView>::empty());
                assert(count_vending(head) == (if v is Vending {
                    1int
                } else {
                    0int
                }));
                assert(count_finished(head) == (if v is Finished {
                    1int
                } else {
                    0int
                }));
                assert(count_finished_true(head) == (if v == EmitView::Finished(true) {
                    1int
                } else {
                    0int
                }));
            },
            Option::None => {
                assert(head =~= Seq::<EmitView>::empty());
            },
        }
        assert(count_vending(head) + (if vend_reached(phase) {
            1int
        } else {
            0int
        }) == (if vend_reached(next) {
            1int
        } else {
            0int
        }));
        assert(count_finished(head) + (if phase is Done {
            1int
        } else {
            0int
        }) == (if next is Done {
            1int
        } else {
            0int
        }));
    }
}

/// The three counts distribute over concatenation.
pub proof fn lemma_count_append(a: Seq<EmitView>, b: Seq<EmitView>)
    ensures
        count_vending(a + b) == count_vending(a) + count_vending(b),
        count_finished(a + b) == count_finished(a) + count_finished(b),
        count_finished_true(a + b) == count_finished_true(a) + count_finished_true(b),
    decreases a.len(),
{
    if a.len() == 0 {
        assert(a + b =~= b);
    } else {
        assert((a + b).skip(1) =~= a.skip(1) + b);
        assert((a + b)[0] == a[0]);
        lemma_count_append(a.skip(1), b);
    }
}

} // verus!

verus! {

/// One event at the head of a run peels off as one step.
pub proof fn lemma_run_step(
    intent: OrderIntent,
    phase: OrderPhase,
    e: WorkflowEvent,
    es: Seq<WorkflowEvent>,
)
    ensures
        run_phase(phase, seq![e] + es) == run_phase(spec_next(phase, e), es),
        run_emits(intent, phase, seq![e] + es) == emit_seq(spec_emit(intent, phase, e))
            + run_emits(intent, spec_next(phase, e), es),
        run_dispense_count(intent, phase, seq![e] + es) == (if spec_action(intent, phase, e)
            is SendDispense {
            1nat
        } else {
            0nat
        }) + run_dispense_count(intent, spec_next(phase, e), es),
{
    assert((seq![e] + es).skip(1) =~= es);
    assert((seq![e] + es)[0] == e);
    assert((seq![e] + es).len() == 1 + es.len());
}

/// A cancellation observed before any identity resolves ends the order
/// with `Finished(false)` alone: whatever the surrounding process
/// observes afterwards, nothing else is ever published and no dispense
/// request is ever issued.
pub proof fn lemma_cancel_before_identity(
    intent: OrderIntent,
    es: Seq<WorkflowEvent>,
    rest: Seq<WorkflowEvent>,
)
    requires
        run_phase(OrderPhase::Scanning, es) == OrderPhase::CancelCheck,
    ensures
        run_phase(OrderPhase::Scanning, es + seq![WorkflowEvent::CancelChecked(true)] + rest)
            == OrderPhase::Done(false),
        run_emits(intent, OrderPhase::Scanning, es + seq![WorkflowEvent::CancelChecked(true)] + rest)
            =~= seq![EmitView::Finished(false)],
        run_dispense_count(
            intent,
            OrderPhase::Scanning,
            es + seq![WorkflowEvent::CancelChecked(true)] + rest,
        ) == 0,
{
    let cancel = seq![WorkflowEvent::CancelChecked(true)];
    lemma_scan_phase_silent(intent, OrderPhase::Scanning, es);
    lemma_run_append(intent, OrderPhase::Scanning, es, cancel);
    assert(cancel =~= seq![WorkflowEvent::CancelChecked(true)] + Seq::<WorkflowEvent>::empty());
    lemma_run_step(
        intent,
        OrderPhase::CancelCheck,
        WorkflowEvent::CancelChecked(true),
        Seq::<WorkflowEvent>::empty(),
    );
    lemma_run_append(intent, OrderPhase::Scanning, es + cancel, rest);
    lemma_done_silent(intent, OrderPhase::Done(false), rest);
    assert(run_emits(intent, OrderPhase::Scanning, es + cancel + rest) =~= seq![
        EmitView::Finished(false),
    ]);
}

} // verus!

verus! {

/// The four events that carry an order from the scan to its end once a
/// tag is presented: the poll that sees the tag, the resolution of its
/// association, the outcome of the dispense call, and the elapsed
/// display hold.
pub open spec fn vend_tail(a: String, uid: String, outcome: Result<u16, String>) -> Seq<
    WorkflowEvent,
> {
    seq![
        WorkflowEvent::TagPolled(Option::Some(a)),
        WorkflowEvent::UserFetched(Option::Some(uid)),
        WorkflowEvent::DispenseDone(outcome),
        WorkflowEvent::HoldElapsed,
    ]
}

/// What the dispense outcome publishes: `Dropped` on HTTP 200, `Failed`
/// with the status line on any other status, `Failed` with the error
/// detail on a transport failure.
pub open spec fn spec_outcome_emit(intent: OrderIntent, outcome: Result<u16, String>) -> EmitView {
    match outcome {
        Result::Ok(code) => if code == 200 {
            EmitView::Dropped(spec_dropped_msg(intent.item_name@, intent.item_cost as int))
        } else {
            EmitView::Failed(spec_failed_status_msg(code as int))
        },
        Result::Err(detail) => EmitView::Failed(spec_failed_transport_msg(detail@)),
    }
}

/// After any quiet scan phase, a successful poll and resolution followed
/// by the dispense outcome and the display hold publish exactly
/// `Vending`, then the outcome, then `Finished(true)`, and issue exactly
/// one dispense request. With HTTP 200 the outcome is `Dropped`; with
/// any other status or a transport failure it is `Failed`.
pub proof fn lemma_vend_sequence(
    intent: OrderIntent,
    es: Seq<WorkflowEvent>,
    a: String,
    uid: String,
    outcome: Result<u16, String>,
)
    requires
        run_phase(OrderPhase::Scanning, es) == OrderPhase::Scanning,
    ensures
        run_phase(OrderPhase::Scanning, es + vend_tail(a, uid, outcome)) == OrderPhase::Done(true),
        run_emits(intent, OrderPhase::Scanning, es + vend_tail(a, uid, outcome)) =~= seq![
            EmitView::Vending(spec_vending_msg(intent.item_name@)),
            spec_outcome_emit(intent, outcome),
            EmitView::Finished(true),
        ],
        run_dispense_count(intent, OrderPhase::Scanning, es + vend_tail(a, uid, outcome)) == 1,
{
    let tail = vend_tail(a, uid, outcome);
    lemma_scan_phase_silent(intent, OrderPhase::Scanning, es);
    lemma_run_append(intent, OrderPhase::Scanning, es, tail);
    let e1 = WorkflowEvent::TagPolled(Option::Some(a));
    let e2 = WorkflowEvent::UserFetched(Option::Some(uid));
    let e3 = WorkflowEvent::DispenseDone(outcome);
    let e4 = WorkflowEvent::HoldElapsed;
    let s1 = seq![e2, e3, e4];
    let s2 = seq![e3, e4];
    let s3 = seq![e4];
    let s4 = Seq::<WorkflowEvent>::empty();
    assert(tail =~= seq![e1] + s1);
    assert(s1 =~= seq![e2] + s2);
    assert(s2 =~= seq![e3] + s3);
    assert(s3 =~= seq![e4] + s4);
    lemma_run_step(intent, OrderPhase::Scanning, e1, s1);
    lemma_run_step(intent, OrderPhase::Resolving(a), e2, s2);
    lemma_run_step(intent, OrderPhase::Dispensing(uid), e3, s3);
    lemma_run_step(intent, OrderPhase::Holding, e4, s4);
    assert(run_emits(intent, OrderPhase::Scanning, es + tail) =~= seq![
        EmitView::Vending(spec_vending_msg(intent.item_name@)),
        spec_outcome_emit(intent, outcome),
        EmitView::Finished(true),
    ]);
}

/// Two failed association resolutions followed by a third that succeeds
/// still reach the vend, and publish nothing but the one `Vending`:
/// resolution failures surface no intermediate state to the consumer.
pub proof fn lemma_retry_then_vend(
    intent: OrderIntent,
    a1: String,
    a2: String,
    a3: String,
    uid: String,
)
    ensures
        run_phase(
            OrderPhase::Scanning,
            seq![
                WorkflowEvent::TagPolled(Option::Some(a1)),
                WorkflowEvent::UserFetched(Option::None),
                WorkflowEvent::TagPolled(Option::Some(a2)),
                WorkflowEvent::UserFetched(Option::None),
                WorkflowEvent::TagPolled(Option::Some(a3)),
                WorkflowEvent::UserFetched(Option::Some(uid)),
            ],
        ) == OrderPhase::Dispensing(uid),
        run_emits(
            intent,
            OrderPhase::Scanning,
            seq![
                WorkflowEvent::TagPolled(Option::Some(a1)),
                WorkflowEvent::UserFetched(Option::None),
                WorkflowEvent::TagPolled(Option::Some(a2)),
                WorkflowEvent::UserFetched(Option::None),
                WorkflowEvent::TagPolled(Option::Some(a3)),
                WorkflowEvent::UserFetched(Option::Some(uid)),
            ],
        ) =~= seq![EmitView::Vending(spec_vending_msg(intent.item_name@))],
{
    let e1 = WorkflowEvent::TagPolled(Option::Some(a1));
    let e2 = WorkflowEvent::UserFetched(Option::None);
    let e3 = WorkflowEvent::TagPolled(Option::Some(a2));
    let e4 = WorkflowEvent::UserFetched(Option::None);
    let e5 = WorkflowEvent::TagPolled(Option::Some(a3));
    let e6 = WorkflowEvent::UserFetched(Option::Some(uid));
    let s0 = seq![e1, e2, e3, e4, e5, e6];
    let s1 = seq![e2, e3, e4, e5, e6];
    let s2 = seq![e3, e4, e5, e6];
    let s3 = seq![e4, e5, e6];
    let s4 = seq![e5, e6];
    let s5 = seq![e6];
    let s6 = Seq::<WorkflowEvent>::empty();
    assert(s0 =~= seq![e1] + s1);
    assert(s1 =~= seq![e2] + s2);
    assert(s2 =~= seq![e3] + s3);
    assert(s3 =~= seq![e4] + s4);
    assert(s4 =~= seq![e5] + s5);
    assert(s5 =~= seq![e6] + s6);
    lemma_run_step(intent, OrderPhase::Scanning, e1, s1);
    lemma_run_step(intent, OrderPhase::Resolving(a1), e2, s2);
    lemma_run_step(intent, OrderPhase::Scanning, e3, s3);
    lemma_run_step(intent, OrderPhase::Resolving(a2), e4, s4);
    lemma_run_step(intent, OrderPhase::Scanning, e5, s5);
    lemma_run_step(intent, OrderPhase::Resolving(a3), e6, s6);
    assert(run_emits(intent, OrderPhase::Scanning, s0) =~= seq![
        EmitView::Vending(spec_vending_msg(intent.item_name@)),
    ]);
}

/// Of a completed order: exactly one terminal event is published;
/// `Finished(true)` is published iff the vend was reached (iff `Vending`
/// was published), and a refresh is requested exactly when a dispense
/// request went out — never on the pure cancellation path.
pub proof fn lemma_finished_true_iff_vend(intent: OrderIntent, es: Seq<WorkflowEvent>)
    requires
        run_phase(OrderPhase::Scanning, es) is Done,
    ensures
        count_finished(run_emits(intent, OrderPhase::Scanning, es)) == 1,
        count_finished_true(run_emits(intent, OrderPhase::Scanning, es)) == count_vending(
            run_emits(intent, OrderPhase::Scanning, es),
        ),
        count_finished_true(run_emits(intent, OrderPhase::Scanning, es)) == run_dispense_count(
            intent,
            OrderPhase::Scanning,
            es,
        ),
{
    lemma_run_accounting(intent, OrderPhase::Scanning, es);
}

} // verus!


verus! {

/// However an order is driven, at most one dispense request is ever
/// issued over its whole life.
pub proof fn lemma_dispense_at_most_once(intent: OrderIntent, es: Seq<WorkflowEvent>)
    ensures
        run_dispense_count(intent, OrderPhase::Scanning, es) <= 1,
{
    lemma_run_accounting(intent, OrderPhase::Scanning, es);
}

} // verus!

verus! {

/// Everything one order publishes over its whole life: the `PleaseScan`
/// that `OrderWorkflow::start` hands out, then whatever the run of
/// events publishes.
pub open spec fn order_publication(intent: OrderIntent, es: Seq<WorkflowEvent>) -> Seq<EmitView> {
    seq![EmitView::PleaseScan] + run_emits(intent, OrderPhase::Scanning, es)
}

/// A whole order whose tag resolves and whose dispense call answers
/// publishes exactly `PleaseScan`, `Vending`, the outcome (`Dropped` on
/// HTTP 200, `Failed` otherwise), `Finished(true)` — whatever quiet
/// scanning came before the tag.
pub proof fn lemma_full_vend_publication(
    intent: OrderIntent,
    es: Seq<WorkflowEvent>,
    a: String,
    uid: String,
    outcome: Result<u16, String>,
)
    requires
        run_phase(OrderPhase::Scanning, es) == OrderPhase::Scanning,
    ensures
        order_publication(intent, es + vend_tail(a, uid, outcome)) =~= seq![
            EmitView::PleaseScan,
            EmitView::Vending(spec_vending_msg(intent.item_name@)),
            spec_outcome_emit(intent, outcome),
            EmitView::Finished(true),
        ],
{
    lemma_vend_sequence(intent, es, a, uid, outcome);
}

/// A whole order cancelled before any identity resolves publishes
/// exactly `PleaseScan`, `Finished(false)` — and by
/// `lemma_cancel_before_identity` it never issues a dispense request.
pub proof fn lemma_full_cancel_publication(
    intent: OrderIntent,
    es: Seq<WorkflowEvent>,
    rest: Seq<WorkflowEvent>,
)
    requires
        run_phase(OrderPhase::Scanning, es) == OrderPhase::CancelCheck,
    ensures
        order_publication(intent, es + seq![WorkflowEvent::CancelChecked(true)] + rest) =~= seq![
            EmitView::PleaseScan,
            EmitView::Finished(false),
        ],
{
    lemma_cancel_before_identity(intent, es, rest);
}

} // verus!
