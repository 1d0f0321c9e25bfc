use super::resource::{opt_controller_resource, opt_resource_of_agent, ResourceParser};
use crate::proto::{agent, controller, scheduler};
use vstd::prelude::*;

verus! {

/// The controller state that stands for a node status.
pub open spec fn node_state_of(status: scheduler::Status) -> controller::NodeState {
    match status {
        scheduler::Status::Starting => controller::NodeState::Registering,
        scheduler::Status::Running => controller::NodeState::Registered,
        scheduler::Status::Stopping => controller::NodeState::Unregistering,
        scheduler::Status::Stopped => controller::NodeState::Unregistered,
        scheduler::Status::Terminated => controller::NodeState::Unregistered,
        _ => controller::NodeState::Failing,
    }
}

/// Converts status reports between the message forms.
pub struct StatusParser {}

impl StatusParser {
    /// Converts a status report of a node agent about a workload to the form sent to the
    /// controller; the status value is carried over unchanged.
    pub fn from_agent_instance_status(status: agent::InstanceStatus) -> (r:
        scheduler::InstanceStatus)
        ensures
            r.id == status.id,
            r.status == status.status,
            r.status_description == status.description,
            r.resource == opt_resource_of_agent(status.resource),
    {
        let resource = match status.resource {
            Some(res) => Some(ResourceParser::from_agent_resource(res)),
            None => None,
        };
        scheduler::InstanceStatus {
            id: status.id,
            status: status.status,
            status_description: status.description,
            resource,
        }
    }

    /// Converts a node status report to the form sent to the controller: the status becomes
    /// the matching node state, and no instance is listed.
    pub fn to_controller_node_status(status: scheduler::NodeStatus) -> (r: controller::NodeStatus)
        ensures
            r.id == status.id,
            r.state == node_state_of(scheduler::Status::from_value_or_default(status.status)).value(),
            r.status_description == status.status_description,
            r.resource == opt_controller_resource(status.resource),
            r.instances@ == Seq::<controller::Instance>::empty(),
    {
        let state = Self::to_node_state_controller(status.status()).to_i32();
        let resource = match status.resource {
            Some(res) => Some(ResourceParser::to_controller_resource(res)),
            None => None,
        };
        controller::NodeStatus {
            id: status.id.clone(),
            state,
            status_description: status.status_description,
            resource,
            instances: Vec::new(),
        }
    }

    /// The controller state that stands for a node status: starting nodes are registering,
    /// running ones registered, stopping ones unregistering, stopped and terminated ones
    /// unregistered, and any other node is failing.
    pub fn to_node_state_controller(status: scheduler::Status) -> (r: controller::NodeState)
        ensures
            r == node_state_of(status),
    {
        match status {
            scheduler::Status::Starting => controller::NodeState::Registering,
            scheduler::Status::Running => controller::NodeState::Registered,
            scheduler::Status::Stopping => controller::NodeState::Unregistering,
            scheduler::Status::Stopped => controller::NodeState::Unregistered,
            scheduler::Status::Terminated => controller::NodeState::Unregistered,
            _ => controller::NodeState::Failing,
        }
    }
}

} // verus!
