//! The menu poller's decisions: whether a fetched catalog is published,
//! and how long to wait before the next fetch when a refresh signal may
//! arrive mid-wait.

use vstd::prelude::*;
use crate::catalog::DrinksResponse;

verus! {

/// How long the poller waits between catalog fetches when no refresh
/// signal arrives, in milliseconds.
pub const POLL_INTERVAL_MS: u64 = 60000;

/// How long the scan loop waits on the cancellation signal between tag
/// polls, in milliseconds. This bounds cancellation latency.
pub const CANCEL_CHECK_MS: u64 = 250;

/// How long a dispense outcome is held on screen, in milliseconds.
pub const HOLD_MS: u64 = 5000;

/// What one catalog fetch came to.
#[derive(Debug, PartialEq)]
pub enum FetchOutcome {
    /// HTTP 200 with a body that parsed.
    Success(DrinksResponse),
    /// A response with a non-success status.
    HttpError(u16),
    /// A 200 response whose body did not parse.
    ParseError,
    /// No response at all.
    TransportError,
}

/// Whether a response with this status is worth parsing: only HTTP 200
/// carries a catalog.
pub fn should_parse(status: u16) -> (r: bool)
    ensures
        r == (status == 200),
{
    status == 200
}

/// A fetched catalog is published iff the fetch fully succeeded; every
/// failure is absorbed silently and the next cycle tries again.
pub fn cycle_publication(outcome: FetchOutcome) -> (r: Option<DrinksResponse>)
    ensures
        match outcome {
            FetchOutcome::Success(resp) => r == Option::Some(resp),
            _ => r is None,
        },
{
    match outcome {
        FetchOutcome::Success(resp) => Option::Some(resp),
        _ => Option::None,
    }
}

/// How one inter-fetch wait ends.
#[derive(Debug, PartialEq, Eq, Structural)]
pub struct WaitPlan {
    /// How long the poller actually waits, in milliseconds.
    pub wait_ms: u64,
    /// Whether a refresh signal cut the wait short.
    pub expedited: bool,
}

/// The wait before the next fetch: up to `interval_ms`, but a refresh
/// signal arriving earlier ends it at once — the next fetch then begins
/// immediately rather than after the remainder of the interval.
pub fn plan_wait(signal_after_ms: Option<u64>, interval_ms: u64) -> (r: WaitPlan)
    ensures
        match signal_after_ms {
            Option::Some(t) => (t < interval_ms ==> r == (WaitPlan {
                wait_ms: t,
                expedited: true,
            })) && (t >= interval_ms ==> r == (WaitPlan {
                wait_ms: interval_ms,
                expedited: false,
            })),
            Option::None => r == (WaitPlan { wait_ms: interval_ms, expedited: false }),
        },
{
    match signal_after_ms {
        Option::Some(t) => if t < interval_ms {
            WaitPlan { wait_ms: t, expedited: true }
        } else {
            WaitPlan { wait_ms: interval_ms, expedited: false }
        },
        Option::None => WaitPlan { wait_ms: interval_ms, expedited: false },
    }
}

} // verus!
