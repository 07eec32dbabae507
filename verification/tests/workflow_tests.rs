use mineral::workflow::{
    DispenseRequest, OrderIntent, OrderPhase, OrderWorkflow, OrderingState, WorkflowAction,
    WorkflowEvent,
};

fn sample_intent() -> OrderIntent {
    OrderIntent {
        machine_id: "bigdrink".to_string(),
        slot_id: 3,
        item_name: "Coke".to_string(),
        item_cost: 150,
    }
}

#[test]
fn start_publishes_please_scan_first() {
    let (workflow, first) = OrderWorkflow::start(sample_intent());
    assert_eq!(first, OrderingState::PleaseScan);
    assert_eq!(workflow.phase, OrderPhase::Scanning);
}

#[test]
fn happy_path_http_200() {
    let (mut workflow, first) = OrderWorkflow::start(sample_intent());
    assert_eq!(first, OrderingState::PleaseScan);

    let out = workflow.step(WorkflowEvent::TagPolled(Some("assoc-1".to_string())));
    assert_eq!(out.emit, None);
    assert_eq!(out.action, WorkflowAction::ResolveUser("assoc-1".to_string()));

    let out = workflow.step(WorkflowEvent::UserFetched(Some("mcdade".to_string())));
    assert_eq!(out.emit, Some(OrderingState::Vending("Dropping Coke...".to_string())));
    assert_eq!(
        out.action,
        WorkflowAction::SendDispense(DispenseRequest {
            body: "{\"machine\":\"bigdrink\",\"slot\":3}".to_string(),
            user_info: "{\"preferred_username\":\"mcdade\"}".to_string(),
        })
    );

    let out = workflow.step(WorkflowEvent::DispenseDone(Ok(200)));
    assert_eq!(
        out.emit,
        Some(OrderingState::Dropped("Dropped Coke for 150 credits. Enjoy!".to_string()))
    );
    assert_eq!(out.action, WorkflowAction::HoldDisplay);

    let out = workflow.step(WorkflowEvent::HoldElapsed);
    assert_eq!(out.emit, Some(OrderingState::Finished(true)));
    assert_eq!(out.action, WorkflowAction::Finish);
    assert_eq!(workflow.phase, OrderPhase::Done(true));
}

#[test]
fn http_500_still_finishes_with_refresh() {
    let (mut workflow, _) = OrderWorkflow::start(sample_intent());
    workflow.step(WorkflowEvent::TagPolled(Some("assoc-1".to_string())));
    workflow.step(WorkflowEvent::UserFetched(Some("mcdade".to_string())));

    let out = workflow.step(WorkflowEvent::DispenseDone(Ok(500)));
    assert_eq!(
        out.emit,
        Some(OrderingState::Failed(
            "Error: Got a 500 Internal Server Error response from the server. Try again later"
                .to_string()
        ))
    );
    assert_eq!(out.action, WorkflowAction::HoldDisplay);

    let out = workflow.step(WorkflowEvent::HoldElapsed);
    assert_eq!(out.emit, Some(OrderingState::Finished(true)));
}

#[test]
fn not_found_status_is_rendered_with_its_reason() {
    let (mut workflow, _) = OrderWorkflow::start(sample_intent());
    workflow.step(WorkflowEvent::TagPolled(Some("a".to_string())));
    workflow.step(WorkflowEvent::UserFetched(Some("u".to_string())));
    let out = workflow.step(WorkflowEvent::DispenseDone(Ok(404)));
    assert_eq!(
        out.emit,
        Some(OrderingState::Failed(
            "Error: Got a 404 Not Found response from the server. Try again later".to_string()
        ))
    );
}

#[test]
fn out_of_range_status_is_rendered_in_decimal() {
    let (mut workflow, _) = OrderWorkflow::start(sample_intent());
    workflow.step(WorkflowEvent::TagPolled(Some("a".to_string())));
    workflow.step(WorkflowEvent::UserFetched(Some("u".to_string())));
    let out = workflow.step(WorkflowEvent::DispenseDone(Ok(1000)));
    assert_eq!(
        out.emit,
        Some(OrderingState::Failed(
            "Error: Got a 1000 response from the server. Try again later".to_string()
        ))
    );
}

#[test]
fn transport_failure_reports_the_detail() {
    let (mut workflow, _) = OrderWorkflow::start(sample_intent());
    workflow.step(WorkflowEvent::TagPolled(Some("a".to_string())));
    workflow.step(WorkflowEvent::UserFetched(Some("u".to_string())));
    let out = workflow.step(WorkflowEvent::DispenseDone(Err("connection refused".to_string())));
    assert_eq!(
        out.emit,
        Some(OrderingState::Failed("Failed to drop: connection refused".to_string()))
    );

    let out = workflow.step(WorkflowEvent::HoldElapsed);
    assert_eq!(out.emit, Some(OrderingState::Finished(true)));
}

#[test]
fn cancellation_yields_finished_false_and_no_dispense() {
    let (mut workflow, _) = OrderWorkflow::start(sample_intent());

    let out = workflow.step(WorkflowEvent::TagPolled(None));
    assert_eq!(out.emit, None);
    assert_eq!(out.action, WorkflowAction::CheckCancel);

    let out = workflow.step(WorkflowEvent::CancelChecked(true));
    assert_eq!(out.emit, Some(OrderingState::Finished(false)));
    assert_eq!(out.action, WorkflowAction::Finish);
    assert_eq!(workflow.phase, OrderPhase::Done(false));

    // The finished workflow stays silent, whatever arrives afterwards.
    let out = workflow.step(WorkflowEvent::UserFetched(Some("mcdade".to_string())));
    assert_eq!(out.emit, None);
    assert_eq!(out.action, WorkflowAction::Finish);
    assert_eq!(workflow.phase, OrderPhase::Done(false));
}

#[test]
fn clear_cancel_check_returns_to_polling() {
    let (mut workflow, _) = OrderWorkflow::start(sample_intent());
    workflow.step(WorkflowEvent::TagPolled(None));
    let out = workflow.step(WorkflowEvent::CancelChecked(false));
    assert_eq!(out.emit, None);
    assert_eq!(out.action, WorkflowAction::PollTag);
    assert_eq!(workflow.phase, OrderPhase::Scanning);
}

#[test]
fn failed_resolutions_surface_nothing_and_retry() {
    let (mut workflow, _) = OrderWorkflow::start(sample_intent());

    for round in 0..2 {
        let assoc = format!("assoc-{}", round);
        let out = workflow.step(WorkflowEvent::TagPolled(Some(assoc.clone())));
        assert_eq!(out.emit, None);
        assert_eq!(out.action, WorkflowAction::ResolveUser(assoc));
        let out = workflow.step(WorkflowEvent::UserFetched(None));
        assert_eq!(out.emit, None);
        assert_eq!(out.action, WorkflowAction::PollTag);
        assert_eq!(workflow.phase, OrderPhase::Scanning);
    }

    workflow.step(WorkflowEvent::TagPolled(Some("assoc-2".to_string())));
    let out = workflow.step(WorkflowEvent::UserFetched(Some("mcdade".to_string())));
    assert_eq!(out.emit, Some(OrderingState::Vending("Dropping Coke...".to_string())));
    assert_eq!(workflow.phase, OrderPhase::Dispensing("mcdade".to_string()));
}

#[test]
fn mismatched_events_are_ignored() {
    let (mut workflow, _) = OrderWorkflow::start(sample_intent());
    let out = workflow.step(WorkflowEvent::HoldElapsed);
    assert_eq!(out.emit, None);
    assert_eq!(out.action, WorkflowAction::Ignore);
    assert_eq!(workflow.phase, OrderPhase::Scanning);

    let out = workflow.step(WorkflowEvent::DispenseDone(Ok(200)));
    assert_eq!(out.emit, None);
    assert_eq!(out.action, WorkflowAction::Ignore);
    assert_eq!(workflow.phase, OrderPhase::Scanning);
}

#[test]
fn request_body_escapes_special_characters() {
    let intent = OrderIntent {
        machine_id: "a\"b\\c\n".to_string(),
        slot_id: 1,
        item_name: "Water".to_string(),
        item_cost: 0,
    };
    let (mut workflow, _) = OrderWorkflow::start(intent);
    workflow.step(WorkflowEvent::TagPolled(Some("assoc".to_string())));
    let out = workflow.step(WorkflowEvent::UserFetched(Some("tab\tuser".to_string())));
    match out.action {
        WorkflowAction::SendDispense(request) => {
            assert_eq!(request.body, "{\"machine\":\"a\\\"b\\\\c\\n\",\"slot\":1}");
            assert_eq!(request.user_info, "{\"preferred_username\":\"tab\\tuser\"}");
            // The encoded strings must round-trip through a JSON parser.
            let body: serde_json::Value = serde_json::from_str(&request.body).unwrap();
            assert_eq!(body["machine"], "a\"b\\c\n");
            assert_eq!(body["slot"], 1);
            let info: serde_json::Value = serde_json::from_str(&request.user_info).unwrap();
            assert_eq!(info["preferred_username"], "tab\tuser");
        }
        other => panic!("expected a dispense request, got {:?}", other),
    }
}

#[test]
fn request_body_escapes_control_characters_with_unicode_escapes() {
    let intent = OrderIntent {
        machine_id: "m\u{1}x".to_string(),
        slot_id: -2,
        item_name: "X".to_string(),
        item_cost: 1,
    };
    let (mut workflow, _) = OrderWorkflow::start(intent);
    workflow.step(WorkflowEvent::TagPolled(Some("assoc".to_string())));
    let out = workflow.step(WorkflowEvent::UserFetched(Some("u".to_string())));
    match out.action {
        WorkflowAction::SendDispense(request) => {
            assert_eq!(request.body, "{\"machine\":\"m\\u0001x\",\"slot\":-2}");
        }
        other => panic!("expected a dispense request, got {:?}", other),
    }
}
