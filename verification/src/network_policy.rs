//! Network policy decisions reported by the network proxy.
use vstd::prelude::*;

verus! {

/// Whether the network proxy allowed or denied a request.
#[derive(Debug, Clone, Copy, PartialEq, Eq, Structural)]
pub enum NetworkPolicyDecision {
    Allow,
    Deny,
    Ask,
}

/// Source that produced the network policy decision.
#[derive(Debug, Clone, Copy, PartialEq, Eq, Structural)]
pub enum NetworkDecisionSource {
    Decider,
    Policy,
    Default,
}

/// Protocol of the request a decision is about.
#[derive(Debug, Clone, Copy, PartialEq, Eq, Structural)]
pub enum NetworkApprovalProtocol {
    Http,
    Https,
    Socks5Tcp,
    Socks5Udp,
}

/// A network policy decision with its context.
#[derive(Debug, Clone, PartialEq, Eq)]
pub struct NetworkPolicyDecisionPayload {
    pub decision: NetworkPolicyDecision,
    pub source: NetworkDecisionSource,
    pub protocol: Option<NetworkApprovalProtocol>,
    pub host: Option<String>,
    pub reason: Option<String>,
    pub port: Option<u16>,
}

impl NetworkPolicyDecisionPayload {
    /// Whether the decider asked for approval.
    pub fn is_ask_from_decider(&self) -> (r: bool)
        ensures
            r == (self.decision == NetworkPolicyDecision::Ask && self.source
                == NetworkDecisionSource::Decider),
    {
        self.decision == NetworkPolicyDecision::Ask && self.source == NetworkDecisionSource::Decider
    }
}

} // verus!
