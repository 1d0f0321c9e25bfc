//! Instances scheduled on the nodes of the cluster.
use crate::node::description_or_empty;
use crate::node::description_text;
use crate::proto::scheduler;
use vstd::prelude::*;

verus! {

/// An instance scheduled on a node; `node_id` names the node when it is recorded.
#[derive(Debug)]
pub struct InstanceScheduled {
    pub id: String,
    pub instance: scheduler::Instance,
    pub node_id: Option<String>,
}

/// The status report sent to the controller when the instance `inst` (already updated)
/// changes to `status`.
pub open spec fn instance_status_report(
    inst: InstanceScheduled,
    status: scheduler::Status,
    description: Seq<char>,
    r: scheduler::InstanceStatus,
) -> bool {
    &&& r.id == inst.id
    &&& r.status == status.value()
    &&& r.status_description@ == description
    &&& r.resource == (if status == scheduler::Status::Running {
        inst.instance.resource
    } else {
        None
    })
}

/// The scheduled instance `inst` with its status set to `status`.
pub open spec fn with_instance_status(inst: InstanceScheduled, status: scheduler::Status) -> InstanceScheduled {
    InstanceScheduled {
        instance: scheduler::Instance { status: status.value(), ..inst.instance },
        ..inst
    }
}

impl InstanceScheduled {
    /// A scheduled instance.
    pub fn new(id: String, instance: scheduler::Instance, node_id: Option<String>) -> (r:
        InstanceScheduled)
        ensures
            r.id == id,
            r.instance == instance,
            r.node_id == node_id,
    {
        InstanceScheduled { id, instance, node_id }
    }

    /// Records the instance's new status and returns the report to send to the controller;
    /// the report carries the instance's resource only when the instance is running.
    pub fn change_status(&mut self, status: scheduler::Status, description: Option<String>) -> (r:
        scheduler::InstanceStatus)
        ensures
            *final(self) == with_instance_status(*old(self), status),
            instance_status_report(*final(self), status, description_text(description), r),
    {
        self.instance.status = status.to_i32();
        let resource = match self.instance.status() {
            scheduler::Status::Running => self.instance.resource,
            _ => None,
        };
        scheduler::InstanceStatus {
            id: self.id.clone(),
            status: status.to_i32(),
            status_description: description_or_empty(description),
            resource,
        }
    }
}

} // verus!
