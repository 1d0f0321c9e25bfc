//! Scheduling core of a small container orchestrator: the node and instance
//! bookkeeping of the scheduler, the choice of a node for a new instance, the
//! conversions between the messages exchanged with the controller and the node
//! agents, and the computations of the node agent.
use vstd::prelude::*;

pub mod config;
pub mod event;
pub mod instance;
pub mod listener;
pub mod node;
pub mod orchestrator;
pub mod parser;
pub mod proto;
pub mod storage;
pub mod system;
pub mod text;
pub mod wide;
pub mod workload;

verus! {

/// Identifier of a node registered to the cluster.
pub type NodeIdentifier = String;

/// Identifier of an instance.
pub type InstanceIdentifier = String;

/// Failure while talking to a node agent or to the controller.
#[derive(Debug, Clone, PartialEq)]
pub enum ProxyError {
    /// The connection to a node agent failed; holds the transport error as `Debug`
    /// renders it.
    TonicTransportError(String),
    /// A request to a node agent failed; holds the returned status as `Debug` renders it.
    TonicStatusError(String),
    /// No gRPC client is connected to the node agent.
    GrpcClientNotFound,
    /// The node status stream to the controller is not open.
    GrpcStreamNotFound,
    /// A message could not be sent on a channel.
    ChannelSenderError,
}

/// Failure of an operation of the orchestrator.
#[derive(Debug, Clone, PartialEq)]
pub enum OrchestratorError {
    NoAvailableNodes,
    NodeNotFound,
    InstanceNotFound,
    NetworkError(String),
    NotEnoughResources,
    FromProxyError(ProxyError),
    InvalidWorkload,
}

impl ProxyError {
    /// A copy of the error.
    pub fn duplicate(&self) -> (r: ProxyError)
        ensures
            r == *self,
    {
        match self {
            ProxyError::TonicTransportError(m) => ProxyError::TonicTransportError(m.clone()),
            ProxyError::TonicStatusError(m) => ProxyError::TonicStatusError(m.clone()),
            ProxyError::GrpcClientNotFound => ProxyError::GrpcClientNotFound,
            ProxyError::GrpcStreamNotFound => ProxyError::GrpcStreamNotFound,
            ProxyError::ChannelSenderError => ProxyError::ChannelSenderError,
        }
    }
}

impl OrchestratorError {
    /// A copy of the error.
    pub fn duplicate(&self) -> (r: OrchestratorError)
        ensures
            r == *self,
    {
        match self {
            OrchestratorError::NoAvailableNodes => OrchestratorError::NoAvailableNodes,
            OrchestratorError::NodeNotFound => OrchestratorError::NodeNotFound,
            OrchestratorError::InstanceNotFound => OrchestratorError::InstanceNotFound,
            OrchestratorError::NetworkError(m) => OrchestratorError::NetworkError(m.clone()),
            OrchestratorError::NotEnoughResources => OrchestratorError::NotEnoughResources,
            OrchestratorError::FromProxyError(p) => OrchestratorError::FromProxyError(p.duplicate()),
            OrchestratorError::InvalidWorkload => OrchestratorError::InvalidWorkload,
        }
    }
}

} // verus!
