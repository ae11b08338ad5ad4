//! The media-session plugin's request/response pair for its `ping` command.
use vstd::prelude::*;

verus! {

/// A ping to the plugin.
#[derive(Debug, Clone, PartialEq)]
pub struct PingRequest {
    pub value: Option<String>,
}

/// The plugin's answer to a ping.
#[derive(Debug, Clone, PartialEq)]
pub struct PingResponse {
    pub value: Option<String>,
}

/// The desktop plugin answers a ping with the value it was sent.
pub fn ping(payload: PingRequest) -> (r: PingResponse)
    ensures
        r.value == payload.value,
{
    PingResponse { value: payload.value }
}

} // verus!
