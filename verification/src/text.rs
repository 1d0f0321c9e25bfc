//! Texts of the messages: descriptions and error reports.
use crate::{OrchestratorError, ProxyError};
use vstd::prelude::*;

verus! {

/// The `Debug` rendering of a string: the string between double quotes, with quotes,
/// backslashes and control characters escaped.
pub uninterp spec fn debug_form(s: Seq<char>) -> Seq<char>;

/// Renders `s` with `<str as core::fmt::Debug>::fmt` (through `format!("{:?}", s)`). The
/// contract names the result `debug_form(s@)`: it depends on `s` alone.
#[verifier::external_body]
fn debug_string(s: &str) -> (r: String)
    ensures
        r@ == debug_form(s@),
{
    format!("{:?}", s)
}

/// The text of a proxy error, in the form `Debug` gives it to the failure it stands for: an
/// error of the transport or a returned status appears as its own rendering.
pub open spec fn proxy_error_text(e: ProxyError) -> Seq<char> {
    match e {
        ProxyError::TonicTransportError(m) => "TonicTransportError("@ + m@ + ")"@,
        ProxyError::TonicStatusError(m) => "TonicStatusError("@ + m@ + ")"@,
        ProxyError::GrpcClientNotFound => "GrpcClientNotFound"@,
        ProxyError::GrpcStreamNotFound => "GrpcStreamNotFound"@,
        ProxyError::ChannelSenderError => "ChannelSenderError"@,
    }
}

/// The text of an orchestrator error, in the form `Debug` gives it.
pub open spec fn orchestrator_error_text(e: OrchestratorError) -> Seq<char> {
    match e {
        OrchestratorError::NoAvailableNodes => "NoAvailableNodes"@,
        OrchestratorError::NodeNotFound => "NodeNotFound"@,
        OrchestratorError::InstanceNotFound => "InstanceNotFound"@,
        OrchestratorError::NetworkError(m) => "NetworkError("@ + debug_form(m@) + ")"@,
        OrchestratorError::NotEnoughResources => "NotEnoughResources"@,
        OrchestratorError::FromProxyError(p) => "FromProxyError("@ + proxy_error_text(p) + ")"@,
        OrchestratorError::InvalidWorkload => "InvalidWorkload"@,
    }
}

/// `prefix`, then `inner`, then a closing parenthesis.
pub fn enclosed(prefix: &str, inner: &str) -> (r: String)
    ensures
        r@ == prefix@ + inner@ + ")"@,
{
    let mut r = prefix.to_string();
    r.append(inner);
    r.append(")");
    r
}

/// `prefix`, the debug form of `m`, then `)`.
fn wrapped(prefix: &str, m: &String) -> (r: String)
    ensures
        r@ == prefix@ + debug_form(m@) + ")"@,
{
    let d = debug_string(m.as_str());
    enclosed(prefix, d.as_str())
}

impl ProxyError {
    /// The text of the error (see `proxy_error_text`).
    pub fn debug_text(&self) -> (r: String)
        ensures
            r@ == proxy_error_text(*self),
    {
        match self {
            ProxyError::TonicTransportError(m) => enclosed("TonicTransportError(", m.as_str()),
            ProxyError::TonicStatusError(m) => enclosed("TonicStatusError(", m.as_str()),
            ProxyError::GrpcClientNotFound => "GrpcClientNotFound".to_string(),
            ProxyError::GrpcStreamNotFound => "GrpcStreamNotFound".to_string(),
            ProxyError::ChannelSenderError => "ChannelSenderError".to_string(),
        }
    }
}

impl OrchestratorError {
    /// The text of the error, in the form `Debug` gives it.
    pub fn debug_text(&self) -> (r: String)
        ensures
            r@ == orchestrator_error_text(*self),
    {
        match self {
            OrchestratorError::NoAvailableNodes => "NoAvailableNodes".to_string(),
            OrchestratorError::NodeNotFound => "NodeNotFound".to_string(),
            OrchestratorError::InstanceNotFound => "InstanceNotFound".to_string(),
            OrchestratorError::NetworkError(m) => wrapped("NetworkError(", m),
            OrchestratorError::NotEnoughResources => "NotEnoughResources".to_string(),
            OrchestratorError::FromProxyError(p) => {
                let t = p.debug_text();
                enclosed("FromProxyError(", t.as_str())
            },
            OrchestratorError::InvalidWorkload => "InvalidWorkload".to_string(),
        }
    }
}

/// The description of an error thrown by the orchestrator, as reported to the controller
/// and to the node agents.
pub open spec fn orchestrator_failure_text(e: OrchestratorError) -> Seq<char> {
    "Error thrown by the orchestrator: "@ + orchestrator_error_text(e)
}

/// Describes an error thrown by the orchestrator.
pub fn orchestrator_failure(e: &OrchestratorError) -> (r: String)
    ensures
        r@ == orchestrator_failure_text(*e),
{
    let mut r = "Error thrown by the orchestrator: ".to_string();
    let t = e.debug_text();
    r.append(t.as_str());
    r
}

/// The description of an instance scheduled on the node whose identifier, rendered by
/// `Debug`, is `rendered_node_id`.
pub fn scheduled_on(rendered_node_id: &str) -> (r: String)
    ensures
        r@ == "Instance is scheduled on node: "@ + rendered_node_id@,
{
    let mut r = "Instance is scheduled on node: ".to_string();
    r.append(rendered_node_id);
    r
}

/// The description of an instance scheduled on the node `node_id`.
pub fn scheduled_description(node_id: &str) -> (r: String)
    ensures
        r@ == "Instance is scheduled on node: "@ + debug_form(node_id@),
{
    let d = debug_string(node_id);
    scheduled_on(d.as_str())
}

} // verus!
