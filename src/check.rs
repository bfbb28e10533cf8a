//! Classifying the outcome of one HTTP probe.
use vstd::prelude::*;

verus! {

/// What one HTTP request came back with: a response status, or a failure
/// below HTTP (connection refused, DNS failure, timeout, malformed response).
#[derive(Clone, Copy, Debug, PartialEq, Eq, Structural)]
pub enum HttpOutcome {
    Response(u16),
    TransportError,
}

/// The verdict of one probe.
#[derive(Clone, Copy, Debug, PartialEq, Eq, Structural)]
pub enum ProbeResult {
    Up,
    Down,
}

/// A success status: 2xx.
pub open spec fn spec_is_success(status: u16) -> bool {
    200 <= status < 300
}

/// A redirection status: 3xx.
pub open spec fn spec_is_redirection(status: u16) -> bool {
    300 <= status < 400
}

/// The verdict that a probe owes for an outcome: `Up` exactly when a
/// response came back with a status in `[200, 400)`.
pub open spec fn probe_verdict(outcome: HttpOutcome) -> ProbeResult {
    match outcome {
        HttpOutcome::Response(status) => if 200 <= status < 400 {
            ProbeResult::Up
        } else {
            ProbeResult::Down
        },
        HttpOutcome::TransportError => ProbeResult::Down,
    }
}

/// Whether `status` is a success status (2xx).
pub fn is_success(status: u16) -> (r: bool)
    ensures
        r == spec_is_success(status),
{
    200 <= status && status < 300
}

/// Whether `status` is a redirection status (3xx).
pub fn is_redirection(status: u16) -> (r: bool)
    ensures
        r == spec_is_redirection(status),
{
    300 <= status && status < 400
}

/// Classifies the outcome of one GET on the target. Every failure of the
/// request is folded into `Down`: the probe never reports an error.
pub fn check_website(outcome: HttpOutcome) -> (r: ProbeResult)
    ensures
        r == probe_verdict(outcome),
        r == ProbeResult::Up <==> (outcome matches HttpOutcome::Response(s) && 200 <= s < 400),
{
    match outcome {
        HttpOutcome::Response(status) => {
            if is_success(status) || is_redirection(status) {
                ProbeResult::Up
            } else {
                ProbeResult::Down
            }
        },
        HttpOutcome::TransportError => ProbeResult::Down,
    }
}

} // verus!
