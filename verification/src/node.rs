//! Nodes of the cluster, as the scheduler knows them.
use crate::instance::InstanceScheduled;
use crate::parser::instance::{
    is_agent_instance_of, is_fake_agent_instance, is_fake_controller_instance, InstanceParser,
};
use crate::parser::resource::{controller_resource, ResourceParser};
use crate::proto::{agent, controller, scheduler};
use crate::storage::Storage;
use crate::ProxyError;
use vstd::prelude::*;

verus! {

/// An IP address.
#[derive(Debug, Clone, Copy, PartialEq, Eq)]
pub enum IpAddress {
    V4([u8; 4]),
    V6([u16; 8]),
}

/// A node: its identifier, its status and the resources it reports.
#[derive(Debug, Clone, PartialEq)]
pub struct Node {
    pub id: String,
    pub status: scheduler::Status,
    pub resource: Option<scheduler::Resource>,
}

/// A node registered to the cluster, with the instances scheduled on it.
/// `status_stream_open` tells whether the stream that forwards its status to the
/// controller is open, `grpc_connected` whether a gRPC client to its agent is connected.
#[derive(Debug)]
pub struct NodeRegistered {
    pub id: String,
    pub node: Node,
    pub address: IpAddress,
    pub status_stream_open: bool,
    pub grpc_connected: bool,
    pub instances: Storage<InstanceScheduled>,
}

/// The status report sent to the controller about `nr` with the given description: the node's
/// id and status, its resource when it is running, and one placeholder per instance.
pub open spec fn node_status_report(
    nr: NodeRegistered,
    description: Seq<char>,
    r: controller::NodeStatus,
) -> bool {
    &&& r.id == nr.id
    &&& r.state == nr.node.status.value()
    &&& r.status_description@ == description
    &&& r.resource == (if nr.node.status == scheduler::Status::Running {
        Some(controller_resource(nr.node.resource->0))
    } else {
        None
    })
    &&& r.instances@.len() == nr.instances.value_seq().len()
    &&& forall|i: int|
        0 <= i < r.instances@.len() ==> is_fake_controller_instance(
            #[trigger] r.instances@[i],
            nr.instances.value_seq()[i].id@,
        )
}

/// The text of an optional description: the description, or nothing.
pub open spec fn description_text(description: Option<String>) -> Seq<char> {
    match description {
        Some(d) => d@,
        None => Seq::<char>::empty(),
    }
}

/// The text of an optional description, as a `String`.
pub fn description_or_empty(description: Option<String>) -> (r: String)
    ensures
        r@ == description_text(description),
{
    match description {
        Some(d) => d,
        None => String::new(),
    }
}

impl NodeRegistered {
    /// A newly registered node: nothing connected, no instance.
    pub fn new(id: String, node: Node, address: IpAddress) -> (r: NodeRegistered)
        ensures
            r.id == id,
            r.node == node,
            r.address == address,
            !r.status_stream_open,
            !r.grpc_connected,
            r.instances.wf(),
            r.instances.value_seq() == Seq::<InstanceScheduled>::empty(),
    {
        NodeRegistered {
            id,
            node,
            address,
            status_stream_open: false,
            grpc_connected: false,
            instances: Storage::new(),
        }
    }

    /// A node joining the cluster as the orchestrator registers it: connected to its agent,
    /// its status stream to the controller open, recorded as starting with no resource
    /// known, and no instance; with the report that announces it to the controller.
    pub fn registering(node: Node, address: IpAddress) -> (r: Result<
        (NodeRegistered, controller::NodeStatus),
        ProxyError,
    >)
        ensures
            r matches Ok((nr, report)) && {
                &&& nr.id == node.id
                &&& nr.node == Node { status: scheduler::Status::Starting, resource: None, ..node }
                &&& nr.address == address
                &&& nr.grpc_connected
                &&& nr.status_stream_open
                &&& nr.instances.wf()
                &&& nr.instances.value_seq() == Seq::<InstanceScheduled>::empty()
                &&& node_status_report(nr, Seq::<char>::empty(), report)
            },
    {
        let mut registered = NodeRegistered::new(node.id.clone(), node, address);
        registered.connect();
        registered.open_node_status_stream();
        let report = registered.update_status(scheduler::Status::Starting, None, None)?;
        Ok((registered, report))
    }

    /// Records that a gRPC client to the node agent is connected.
    pub fn connect(&mut self)
        ensures
            final(self).grpc_connected,
            final(self).id == old(self).id,
            final(self).node == old(self).node,
            final(self).address == old(self).address,
            final(self).status_stream_open == old(self).status_stream_open,
            final(self).instances == old(self).instances,
    {
        self.grpc_connected = true;
    }

    /// Opens the status stream to the controller. Returns `true` when the stream was closed
    /// and is now to be opened, `false` when it was already open.
    pub fn open_node_status_stream(&mut self) -> (r: bool)
        ensures
            r == !old(self).status_stream_open,
            final(self).status_stream_open,
            final(self).id == old(self).id,
            final(self).node == old(self).node,
            final(self).address == old(self).address,
            final(self).grpc_connected == old(self).grpc_connected,
            final(self).instances == old(self).instances,
    {
        if self.status_stream_open {
            return false;
        }
        self.status_stream_open = true;
        true
    }

    /// Closes the status stream to the controller.
    pub fn close_node_status_stream(&mut self)
        ensures
            !final(self).status_stream_open,
            final(self).id == old(self).id,
            final(self).node == old(self).node,
            final(self).address == old(self).address,
            final(self).grpc_connected == old(self).grpc_connected,
            final(self).instances == old(self).instances,
    {
        self.status_stream_open = false;
    }

    /// Records the node's new status and resource, and returns the report to send to the
    /// controller, or `GrpcStreamNotFound` when the status stream is not open (the new status
    /// and resource are recorded either way).
    pub fn update_status(
        &mut self,
        status: scheduler::Status,
        description: Option<String>,
        resource: Option<scheduler::Resource>,
    ) -> (r: Result<controller::NodeStatus, ProxyError>)
        requires
            old(self).instances.wf(),
            old(self).status_stream_open && status == scheduler::Status::Running ==> resource is Some,
        ensures
            final(self).node.status == status,
            final(self).node.resource == resource,
            final(self).node.id == old(self).node.id,
            final(self).id == old(self).id,
            final(self).address == old(self).address,
            final(self).status_stream_open == old(self).status_stream_open,
            final(self).grpc_connected == old(self).grpc_connected,
            final(self).instances == old(self).instances,
            !old(self).status_stream_open ==> r == Err::<controller::NodeStatus, ProxyError>(
                ProxyError::GrpcStreamNotFound,
            ),
            old(self).status_stream_open ==> (r matches Ok(report) && node_status_report(
                *final(self),
                description_text(description),
                report,
            )),
    {
        self.node.status = status;
        self.node.resource = resource;
        if !self.status_stream_open {
            return Err(ProxyError::GrpcStreamNotFound);
        }
        let report_resource = match status {
            scheduler::Status::Running => {
                match resource {
                    Some(res) => Some(ResourceParser::to_controller_resource(res)),
                    None => None,
                }
            },
            _ => None,
        };
        let values = self.instances.get_all();
        let n = values.len();
        let mut instances: Vec<controller::Instance> = Vec::new();
        let mut i: usize = 0;
        while i < n
            invariant
                n == values@.len(),
                values@ == self.instances.value_seq(),
                0 <= i <= n,
                instances@.len() == i,
                forall|j: int|
                    0 <= j < i ==> is_fake_controller_instance(
                        #[trigger] instances@[j],
                        values@[j].id@,
                    ),
            decreases n - i,
        {
            instances.push(InstanceParser::fake_controller_instance(values[i].id.clone()));
            i += 1;
        }
        Ok(
            controller::NodeStatus {
                id: self.id.clone(),
                state: status.to_i32(),
                status_description: description_or_empty(description),
                resource: report_resource,
                instances,
            },
        )
    }

    /// The request that creates `instance` on the node agent, or `GrpcClientNotFound` when no
    /// client is connected to the agent.
    pub fn create_instance(&self, instance: scheduler::Instance) -> (r: Result<
        agent::Instance,
        ProxyError,
    >)
        ensures
            !self.grpc_connected ==> r == Err::<agent::Instance, ProxyError>(
                ProxyError::GrpcClientNotFound,
            ),
            self.grpc_connected ==> (r matches Ok(a) && is_agent_instance_of(a, instance)),
    {
        if !self.grpc_connected {
            return Err(ProxyError::GrpcClientNotFound);
        }
        Ok(InstanceParser::to_agent_instance(instance))
    }

    /// The instruction that stops the instance `id` on the node agent, or
    /// `GrpcClientNotFound` when no client is connected to the agent.
    pub fn stop_instance(&self, id: String) -> (r: Result<agent::SignalInstruction, ProxyError>)
        ensures
            !self.grpc_connected ==> r == Err::<agent::SignalInstruction, ProxyError>(
                ProxyError::GrpcClientNotFound,
            ),
            self.grpc_connected ==> (r matches Ok(s) && s.signal == agent::Signal::Stop.value() && (s.instance
                matches Some(inst) && is_fake_agent_instance(inst, id@))),
    {
        self.signal_instance(id, agent::Signal::Stop)
    }

    /// The instruction that kills the instance `id` on the node agent, or
    /// `GrpcClientNotFound` when no client is connected to the agent.
    pub fn kill_instance(&self, id: String) -> (r: Result<agent::SignalInstruction, ProxyError>)
        ensures
            !self.grpc_connected ==> r == Err::<agent::SignalInstruction, ProxyError>(
                ProxyError::GrpcClientNotFound,
            ),
            self.grpc_connected ==> (r matches Ok(s) && s.signal == agent::Signal::Kill.value() && (s.instance
                matches Some(inst) && is_fake_agent_instance(inst, id@))),
    {
        self.signal_instance(id, agent::Signal::Kill)
    }

    fn signal_instance(&self, id: String, signal: agent::Signal) -> (r: Result<
        agent::SignalInstruction,
        ProxyError,
    >)
        ensures
            !self.grpc_connected ==> r == Err::<agent::SignalInstruction, ProxyError>(
                ProxyError::GrpcClientNotFound,
            ),
            self.grpc_connected ==> (r matches Ok(s) && s.signal == signal.value() && (s.instance
                matches Some(inst) && is_fake_agent_instance(inst, id@))),
    {
        if !self.grpc_connected {
            return Err(ProxyError::GrpcClientNotFound);
        }
        Ok(
            agent::SignalInstruction {
                signal: signal.to_i32(),
                instance: Some(InstanceParser::fake_agent_instance(id)),
            },
        )
    }
}

} // verus!
