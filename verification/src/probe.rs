//! The health probe: one liveness check of an endpoint. The caller makes the
//! request; what came of it is judged here. A failed request is an answer
//! like any other, never an error.

use vstd::prelude::*;
use crate::endpoint::EndpointDescriptor;

verus! {

/// What came of one request to an endpoint.
#[derive(Debug, Clone, Copy, PartialEq, Eq, Structural)]
pub enum ProbeOutcome {
    /// A response arrived, with this status code.
    Responded(u16),
    /// No response arrived: the connection failed, or the request ran out of
    /// time.
    Unreachable,
}

impl ProbeOutcome {
    /// Whether the outcome shows the endpoint ready: a response whose status
    /// is a success, from 200 to 299.
    pub open spec fn shows_ready(self) -> bool {
        match self {
            ProbeOutcome::Responded(status) => 200 <= status <= 299,
            ProbeOutcome::Unreachable => false,
        }
    }

    /// Tells whether the outcome shows the endpoint ready.
    pub fn is_ready(self) -> (ready: bool)
        ensures
            ready == self.shows_ready(),
    {
        match self {
            ProbeOutcome::Responded(status) => 200 <= status && status <= 299,
            ProbeOutcome::Unreachable => false,
        }
    }
}

/// The answer of one probe.
#[derive(Debug, Clone, PartialEq, Eq)]
pub struct ReadinessResult {
    pub ready: bool,
    pub endpoint: EndpointDescriptor,
}

/// The answer of one probe as the shell is told it.
#[derive(Debug, Clone, PartialEq, Eq)]
pub struct BackendStatus {
    pub running: bool,
    pub url: String,
}

/// Judges one request to `endpoint` that ended as `outcome`.
pub fn check(endpoint: EndpointDescriptor, outcome: ProbeOutcome) -> (result: ReadinessResult)
    ensures
        result.ready == outcome.shows_ready(),
        result.endpoint == endpoint,
{
    ReadinessResult { ready: outcome.is_ready(), endpoint }
}

impl ReadinessResult {
    /// The status that the shell is told: whether the backend runs, and the
    /// URL that was probed.
    pub fn status(&self) -> (status: BackendStatus)
        ensures
            status.running == self.ready,
            status.url@ == self.endpoint.url_text(),
    {
        BackendStatus { running: self.ready, url: self.endpoint.url() }
    }
}

} // verus!
