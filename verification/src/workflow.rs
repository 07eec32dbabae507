//! The per-order workflow: a state machine that waits for a proximity-tag
//! scan, resolves it to an identity, issues one dispense request, and
//! reports the outcome. The surrounding process performs the hardware
//! polls, the HTTP call and the delays, and feeds the observed results
//! back in as events; every decision and every published state is made
//! here.

use vstd::prelude::*;
use vstd::string::StringExecFns;
use crate::numfmt::{dec_int, i64_to_string, u64_to_string};
use crate::protocol::{
    encode_drop_request, encode_user_info, spec_drop_request, spec_user_info, status_line,
    status_text,
};

verus! {

/// What is being ordered, captured at selection time and never re-read
/// from mutable state afterwards.
#[derive(Debug, Clone, PartialEq)]
pub struct OrderIntent {
    pub machine_id: String,
    pub slot_id: i64,
    pub item_name: String,
    pub item_cost: i64,
}

/// One order-state transition as published to the consumer.
#[derive(Debug, Clone, PartialEq)]
pub enum OrderingState {
    PleaseScan,
    Vending(String),
    Dropped(String),
    Failed(String),
    Finished(bool),
}

/// Ghost image of a published order state.
pub enum EmitView {
    PleaseScan,
    Vending(Seq<char>),
    Dropped(Seq<char>),
    Failed(Seq<char>),
    Finished(bool),
}

impl View for OrderingState {
    type V = EmitView;

    open spec fn view(&self) -> EmitView {
        match self {
            OrderingState::PleaseScan => EmitView::PleaseScan,
            OrderingState::Vending(m) => EmitView::Vending(m@),
            OrderingState::Dropped(m) => EmitView::Dropped(m@),
            OrderingState::Failed(m) => EmitView::Failed(m@),
            OrderingState::Finished(b) => EmitView::Finished(*b),
        }
    }
}

/// An observation the surrounding process hands back to the workflow:
/// the outcome of the work the last action asked for.
#[derive(Debug, PartialEq)]
pub enum WorkflowEvent {
    /// Result of one non-blocking tag poll: an association, or none.
    TagPolled(Option<String>),
    /// Whether a cancellation request arrived during the short wait.
    CancelChecked(bool),
    /// Result of resolving an association: the user identifier, or none.
    UserFetched(Option<String>),
    /// Result of the dispense call: an HTTP status, or transport error text.
    DispenseDone(Result<u16, String>),
    /// The post-vend display hold has elapsed.
    HoldElapsed,
}

/// Where one order stands.
#[derive(Debug, Clone, PartialEq)]
pub enum OrderPhase {
    /// Waiting for a tag; the next poll decides.
    Scanning,
    /// An empty poll came back; waiting on the cancellation check.
    CancelCheck,
    /// A tag was presented; waiting for its association to resolve.
    Resolving(String),
    /// Identity in hand; waiting for the dispense call's outcome.
    Dispensing(String),
    /// Outcome published; holding it on screen.
    Holding,
    /// Terminal. The flag records whether a catalog refresh is owed.
    Done(bool),
}

/// The two strings of a dispense request: its JSON body and the value of
/// the caller-identity header.
#[derive(Debug, Clone, PartialEq)]
pub struct DispenseRequest {
    pub body: String,
    pub user_info: String,
}

/// Ghost image of a dispense request.
pub struct DispenseRequestView {
    pub body: Seq<char>,
    pub user_info: Seq<char>,
}

impl View for DispenseRequest {
    type V = DispenseRequestView;

    open spec fn view(&self) -> DispenseRequestView {
        DispenseRequestView { body: self.body@, user_info: self.user_info@ }
    }
}

/// What the workflow asks the surrounding process to do next.
#[derive(Debug, Clone, PartialEq)]
pub enum WorkflowAction {
    /// Poll the reader once for a tag.
    PollTag,
    /// Wait briefly for a cancellation request.
    CheckCancel,
    /// Resolve this association to an identity.
    ResolveUser(String),
    /// Issue the dispense request.
    SendDispense(DispenseRequest),
    /// Hold the published outcome on screen.
    HoldDisplay,
    /// The order is over; stop driving it.
    Finish,
    /// The event did not belong to the current phase; nothing new to do.
    Ignore,
}

/// Ghost image of a workflow action.
pub enum ActionView {
    PollTag,
    CheckCancel,
    ResolveUser(Seq<char>),
    SendDispense(DispenseRequestView),
    HoldDisplay,
    Finish,
    Ignore,
}

impl View for WorkflowAction {
    type V = ActionView;

    open spec fn view(&self) -> ActionView {
        match self {
            WorkflowAction::PollTag => ActionView::PollTag,
            WorkflowAction::CheckCancel => ActionView::CheckCancel,
            WorkflowAction::ResolveUser(a) => ActionView::ResolveUser(a@),
            WorkflowAction::SendDispense(r) => ActionView::SendDispense(r@),
            WorkflowAction::HoldDisplay => ActionView::HoldDisplay,
            WorkflowAction::Finish => ActionView::Finish,
            WorkflowAction::Ignore => ActionView::Ignore,
        }
    }
}

/// What one step hands back: at most one state to publish, and the next
/// piece of outside work.
pub struct StepOutcome {
    pub emit: Option<OrderingState>,
    pub action: WorkflowAction,
}

/// The message published on entering the vend.
pub open spec fn spec_vending_msg(item: Seq<char>) -> Seq<char> {
    "Dropping "@ + item + "..."@
}

/// The message published on a successful dispense.
pub open spec fn spec_dropped_msg(item: Seq<char>, cost: int) -> Seq<char> {
    "Dropped "@ + item + " for "@ + dec_int(cost) + " credits. Enjoy!"@
}

/// The message published when the backend answers with a non-success
/// status.
pub open spec fn spec_failed_status_msg(code: int) -> Seq<char> {
    "Error: Got a "@ + (if 100 <= code <= 999 {
        status_text(code)
    } else {
        dec_int(code)
    }) + " response from the server. Try again later"@
}

/// The message published when the dispense call fails in transport.
pub open spec fn spec_failed_transport_msg(detail: Seq<char>) -> Seq<char> {
    "Failed to drop: "@ + detail
}

/// The phase that follows `phase` on observing `e`. An event that does
/// not belong to the phase changes nothing.
pub open spec fn spec_next(phase: OrderPhase, e: WorkflowEvent) -> OrderPhase {
    match (phase, e) {
        (OrderPhase::Scanning, WorkflowEvent::TagPolled(Option::None)) => OrderPhase::CancelCheck,
        (OrderPhase::Scanning, WorkflowEvent::TagPolled(Option::Some(a))) => OrderPhase::Resolving(
            a,
        ),
        (OrderPhase::CancelCheck, WorkflowEvent::CancelChecked(true)) => OrderPhase::Done(false),
        (OrderPhase::CancelCheck, WorkflowEvent::CancelChecked(false)) => OrderPhase::Scanning,
        (OrderPhase::Resolving(_), WorkflowEvent::UserFetched(Option::None)) => OrderPhase::Scanning,
        (OrderPhase::Resolving(_), WorkflowEvent::UserFetched(Option::Some(uid)))
            => OrderPhase::Dispensing(uid),
        (OrderPhase::Dispensing(_), WorkflowEvent::DispenseDone(_)) => OrderPhase::Holding,
        (OrderPhase::Holding, WorkflowEvent::HoldElapsed) => OrderPhase::Done(true),
        (p, _) => p,
    }
}

/// The state published on observing `e` in `phase`, if any.
pub open spec fn spec_emit(intent: OrderIntent, phase: OrderPhase, e: WorkflowEvent) -> Option<
    EmitView,
> {
    match (phase, e) {
        (OrderPhase::CancelCheck, WorkflowEvent::CancelChecked(true)) => Option::Some(
            EmitView::Finished(false),
        ),
        (OrderPhase::Resolving(_), WorkflowEvent::UserFetched(Option::Some(_))) => Option::Some(
            EmitView::Vending(spec_vending_msg(intent.item_name@)),
        ),
        (OrderPhase::Dispensing(_), WorkflowEvent::DispenseDone(Result::Ok(code))) => if code
            == 200 {
            Option::Some(
                EmitView::Dropped(spec_dropped_msg(intent.item_name@, intent.item_cost as int)),
            )
        } else {
            Option::Some(EmitView::Failed(spec_failed_status_msg(code as int)))
        },
        (OrderPhase::Dispensing(_), WorkflowEvent::DispenseDone(Result::Err(detail)))
            => Option::Some(EmitView::Failed(spec_failed_transport_msg(detail@))),
        (OrderPhase::Holding, WorkflowEvent::HoldElapsed) => Option::Some(EmitView::Finished(true)),
        _ => Option::None,
    }
}

/// The outside work asked for on observing `e` in `phase`.
pub open spec fn spec_action(intent: OrderIntent, phase: OrderPhase, e: WorkflowEvent) -> ActionView {
    match (phase, e) {
        (OrderPhase::Scanning, WorkflowEvent::TagPolled(Option::None)) => ActionView::CheckCancel,
        (OrderPhase::Scanning, WorkflowEvent::TagPolled(Option::Some(a))) => ActionView::ResolveUser(
            a@,
        ),
        (OrderPhase::CancelCheck, WorkflowEvent::CancelChecked(true)) => ActionView::Finish,
        (OrderPhase::CancelCheck, WorkflowEvent::CancelChecked(false)) => ActionView::PollTag,
        (OrderPhase::Resolving(_), WorkflowEvent::UserFetched(Option::None)) => ActionView::PollTag,
        (OrderPhase::Resolving(_), WorkflowEvent::UserFetched(Option::Some(uid)))
            => ActionView::SendDispense(
            DispenseRequestView {
                body: spec_drop_request(intent.machine_id@, intent.slot_id as int),
                user_info: spec_user_info(uid@),
            },
        ),
        (OrderPhase::Dispensing(_), WorkflowEvent::DispenseDone(_)) => ActionView::HoldDisplay,
        (OrderPhase::Holding, WorkflowEvent::HoldElapsed) => ActionView::Finish,
        (OrderPhase::Done(_), _) => ActionView::Finish,
        _ => ActionView::Ignore,
    }
}

/// Ghost image of an optional published state.
pub open spec fn opt_view(o: Option<OrderingState>) -> Option<EmitView> {
    match o {
        Option::Some(s) => Option::Some(s@),
        Option::None => Option::None,
    }
}

/// One in-flight order: its immutable intent and its current phase.
#[derive(Debug)]
pub struct OrderWorkflow {
    pub intent: OrderIntent,
    pub phase: OrderPhase,
}

fn vending_message(item: &str) -> (r: String)
    ensures
        r@ == spec_vending_msg(item@),
{
    let r = String::from_str("Dropping ").concat(item).concat("...");
    proof {
        assert(r@ =~= spec_vending_msg(item@));
    }
    r
}

fn dropped_message(item: &str, cost: i64) -> (r: String)
    ensures
        r@ == spec_dropped_msg(item@, cost as int),
{
    let rendered = i64_to_string(cost);
    let r = String::from_str("Dropped ").concat(item).concat(" for ").concat(
        rendered.as_str(),
    ).concat(" credits. Enjoy!");
    proof {
        assert(r@ =~= spec_dropped_msg(item@, cost as int));
    }
    r
}

fn failed_status_message(code: u16) -> (r: String)
    ensures
        r@ == spec_failed_status_msg(code as int),
{
    let mid = match status_line(code) {
        Option::Some(line) => line,
        Option::None => u64_to_string(code as u64),
    };
    let r = String::from_str("Error: Got a ").concat(mid.as_str()).concat(
        " response from the server. Try again later",
    );
    proof {
        assert(r@ =~= spec_failed_status_msg(code as int));
    }
    r
}

fn failed_transport_message(detail: &str) -> (r: String)
    ensures
        r@ == spec_failed_transport_msg(detail@),
{
    let r = String::from_str("Failed to drop: ").concat(detail);
    proof {
        assert(r@ =~= spec_failed_transport_msg(detail@));
    }
    r
}

impl OrderWorkflow {
    /// Begin an order for `intent`. The returned `PleaseScan` must be
    /// published before any event is fed in: it is the first event of
    /// the order and carries the cancellation handle to the consumer.
    pub fn start(intent: OrderIntent) -> (r: (OrderWorkflow, OrderingState))
        ensures
            r.0.intent == intent,
            r.0.phase == OrderPhase::Scanning,
            r.1@ == EmitView::PleaseScan,
    {
        (OrderWorkflow { intent, phase: OrderPhase::Scanning }, OrderingState::PleaseScan)
    }

    /// Feed one observed event in; move to the next phase, and hand back
    /// what to publish and what outside work to do next.
    pub fn step(&mut self, e: WorkflowEvent) -> (r: StepOutcome)
        ensures
            final(self).intent == old(self).intent,
            final(self).phase == spec_next(old(self).phase, e),
            opt_view(r.emit) == spec_emit(old(self).intent, old(self).phase, e),
            r.action@ == spec_action(old(self).intent, old(self).phase, e),
    {
        let mut phase = OrderPhase::Scanning;
        core::mem::swap(&mut phase, &mut self.phase);
        match (phase, e) {
            (OrderPhase::Scanning, WorkflowEvent::TagPolled(Option::None)) => {
                self.phase = OrderPhase::CancelCheck;
                StepOutcome { emit: Option::None, action: WorkflowAction::CheckCancel }
            },
            (OrderPhase::Scanning, WorkflowEvent::TagPolled(Option::Some(a))) => {
                let handle = a.clone();
                self.phase = OrderPhase::Resolving(a);
                StepOutcome { emit: Option::None, action: WorkflowAction::ResolveUser(handle) }
            },
            (OrderPhase::CancelCheck, WorkflowEvent::CancelChecked(true)) => {
                self.phase = OrderPhase::Done(false);
                StepOutcome {
                    emit: Option::Some(OrderingState::Finished(false)),
                    action: WorkflowAction::Finish,
                }
            },
            (OrderPhase::CancelCheck, WorkflowEvent::CancelChecked(false)) => {
                self.phase = OrderPhase::Scanning;
                StepOutcome { emit: Option::None, action: WorkflowAction::PollTag }
            },
            (OrderPhase::Resolving(_), WorkflowEvent::UserFetched(Option::None)) => {
                self.phase = OrderPhase::Scanning;
                StepOutcome { emit: Option::None, action: WorkflowAction::PollTag }
            },
            (OrderPhase::Resolving(_), WorkflowEvent::UserFetched(Option::Some(uid))) => {
                let request = DispenseRequest {
                    body: encode_drop_request(self.intent.machine_id.as_str(), self.intent.slot_id),
                    user_info: encode_user_info(uid.as_str()),
                };
                let message = vending_message(self.intent.item_name.as_str());
                self.phase = OrderPhase::Dispensing(uid);
                StepOutcome {
                    emit: Option::Some(OrderingState::Vending(message)),
                    action: WorkflowAction::SendDispense(request),
                }
            },
            (OrderPhase::Dispensing(_), WorkflowEvent::DispenseDone(Result::Ok(code))) => {
                let message = if code == 200 {
                    OrderingState::Dropped(
                        dropped_message(self.intent.item_name.as_str(), self.intent.item_cost),
                    )
                } else {
                    OrderingState::Failed(failed_status_message(code))
                };
                self.phase = OrderPhase::Holding;
                StepOutcome { emit: Option::Some(message), action: WorkflowAction::HoldDisplay }
            },
            (OrderPhase::Dispensing(_), WorkflowEvent::DispenseDone(Result::Err(detail))) => {
                self.phase = OrderPhase::Holding;
                StepOutcome {
                    emit: Option::Some(
                        OrderingState::Failed(failed_transport_message(detail.as_str())),
                    ),
                    action: WorkflowAction::HoldDisplay,
                }
            },
            (OrderPhase::Holding, WorkflowEvent::HoldElapsed) => {
                self.phase = OrderPhase::Done(true);
                StepOutcome {
                    emit: Option::Some(OrderingState::Finished(true)),
                    action: WorkflowAction::Finish,
                }
            },
            (OrderPhase::Done(b), _) => {
                self.phase = OrderPhase::Done(b);
                StepOutcome { emit: Option::None, action: WorkflowAction::Finish }
            },
            (p, _) => {
                self.phase = p;
                StepOutcome { emit: Option::None, action: WorkflowAction::Ignore }
            },
        }
    }
}

} // verus!
