use mineral::catalog::DrinksResponse;
use mineral::poller::{cycle_publication, plan_wait, should_parse, FetchOutcome, WaitPlan};

#[test]
fn refresh_signal_cuts_the_wait_short() {
    // A signal one second into a sixty-second wait: the next fetch
    // begins immediately, not after the remaining fifty-nine seconds.
    let plan = plan_wait(Some(1000), 60000);
    assert_eq!(plan, WaitPlan { wait_ms: 1000, expedited: true });
}

#[test]
fn no_signal_waits_out_the_interval() {
    let plan = plan_wait(None, 60000);
    assert_eq!(plan, WaitPlan { wait_ms: 60000, expedited: false });
}

#[test]
fn late_signal_does_not_expedite() {
    let plan = plan_wait(Some(60000), 60000);
    assert_eq!(plan, WaitPlan { wait_ms: 60000, expedited: false });
}

#[test]
fn only_a_successful_fetch_is_published() {
    let resp = DrinksResponse { machines: vec![], message: "ok".to_string() };
    let published = cycle_publication(FetchOutcome::Success(resp.clone()));
    assert_eq!(published, Some(resp));
    assert_eq!(cycle_publication(FetchOutcome::HttpError(503)), None);
    assert_eq!(cycle_publication(FetchOutcome::ParseError), None);
    assert_eq!(cycle_publication(FetchOutcome::TransportError), None);
}

#[test]
fn only_http_200_is_parsed() {
    assert!(should_parse(200));
    assert!(!should_parse(204));
    assert!(!should_parse(500));
}

#[test]
fn poller_constants_match_the_design() {
    assert_eq!(mineral::poller::POLL_INTERVAL_MS, 60000);
    assert_eq!(mineral::poller::CANCEL_CHECK_MS, 250);
    assert_eq!(mineral::poller::HOLD_MS, 5000);
}
