//! The network capability of an instance. It stands beside the other
//! capabilities and knows nothing of streams, environment or directories.

use vstd::prelude::*;

verus! {

/// What an instance may do on the network: nothing, or make outbound
/// requests. Listening for inbound connections is never allowed.
#[derive(Clone, Copy, Debug, PartialEq, Eq, Structural)]
pub enum HttpContext {
    /// No network at all.
    Denied,
    /// Outbound requests, and nothing else.
    OutboundOnly,
}

/// Whether `http` allows outbound requests.
pub open spec fn allows_outbound(http: HttpContext) -> bool {
    http == HttpContext::OutboundOnly
}

impl HttpContext {
    /// The capability to make outbound requests.
    pub fn new() -> (http: Self)
        ensures
            http == HttpContext::OutboundOnly,
    {
        HttpContext::OutboundOnly
    }

    /// No network capability.
    pub fn denied() -> (http: Self)
        ensures
            http == HttpContext::Denied,
    {
        HttpContext::Denied
    }

    /// Whether outbound requests are allowed.
    pub fn allows_outbound(self) -> (allowed: bool)
        ensures
            allowed == allows_outbound(self),
    {
        match self {
            HttpContext::OutboundOnly => true,
            HttpContext::Denied => false,
        }
    }

    /// Whether inbound connections are allowed: never.
    pub fn allows_inbound(self) -> (allowed: bool)
        ensures
            !allowed,
    {
        false
    }
}

} // verus!
