//! Request and response shapes of the application-facing command surface.

use vstd::prelude::*;

verus! {

/// Request of the diagnostic ping round trip.
#[derive(Debug, Clone, PartialEq, Eq)]
pub struct PingRequest {
    pub value: Option<String>,
}

/// Response of the diagnostic ping round trip.
#[derive(Debug, Clone, PartialEq, Eq)]
pub struct PingResponse {
    pub value: Option<String>,
}

/// Request of the boundary-liveness echo command.
#[derive(Debug, Clone, PartialEq, Eq)]
pub struct EchoReq {
    pub value: Option<String>,
}

/// Response of the boundary-liveness echo command.
#[derive(Debug, Clone, PartialEq, Eq)]
pub struct EchoResp {
    pub value: Option<String>,
}

/// Configuration of the scan commands; carries nothing today.
#[derive(Debug, Clone, PartialEq, Eq)]
pub struct ConnectConf {}

/// Outcome of a state-changing command: whether the native layer accepted
/// the request. `false` is a normal, expected outcome, returned as data and
/// never escalated to an error.
#[derive(Debug, Clone, PartialEq, Eq, Structural)]
pub struct ConnectResp {
    pub success: bool,
}

} // verus!
