use crate::proto::{agent, controller, scheduler};
use vstd::prelude::*;

verus! {

/// The agent form of a resource summary: the same amounts.
pub open spec fn agent_summary(s: scheduler::ResourceSummary) -> agent::ResourceSummary {
    agent::ResourceSummary { cpu: s.cpu, memory: s.memory, disk: s.disk }
}

/// The controller form of a resource summary: the same amounts.
pub open spec fn controller_summary(s: scheduler::ResourceSummary) -> controller::ResourceSummary {
    controller::ResourceSummary { cpu: s.cpu, memory: s.memory, disk: s.disk }
}

/// The scheduler form of an agent resource summary: the same amounts.
pub open spec fn summary_of_agent(s: agent::ResourceSummary) -> scheduler::ResourceSummary {
    scheduler::ResourceSummary { cpu: s.cpu, memory: s.memory, disk: s.disk }
}

/// The agent form of a resource: limit and usage converted, absent ones stay absent.
pub open spec fn agent_resource(r: scheduler::Resource) -> agent::Resource {
    agent::Resource {
        limit: match r.limit {
            Some(s) => Some(agent_summary(s)),
            None => None,
        },
        usage: match r.usage {
            Some(s) => Some(agent_summary(s)),
            None => None,
        },
    }
}

/// The controller form of a resource: limit and usage converted, absent ones stay absent.
pub open spec fn controller_resource(r: scheduler::Resource) -> controller::Resource {
    controller::Resource {
        limit: match r.limit {
            Some(s) => Some(controller_summary(s)),
            None => None,
        },
        usage: match r.usage {
            Some(s) => Some(controller_summary(s)),
            None => None,
        },
    }
}

/// The scheduler form of an agent resource: limit and usage converted, absent ones stay absent.
pub open spec fn resource_of_agent(r: agent::Resource) -> scheduler::Resource {
    scheduler::Resource {
        limit: match r.limit {
            Some(s) => Some(summary_of_agent(s)),
            None => None,
        },
        usage: match r.usage {
            Some(s) => Some(summary_of_agent(s)),
            None => None,
        },
    }
}

/// An optional resource converted to the agent form.
pub open spec fn opt_agent_resource(r: Option<scheduler::Resource>) -> Option<agent::Resource> {
    match r {
        Some(r) => Some(agent_resource(r)),
        None => None,
    }
}

/// An optional agent resource converted to the scheduler form.
pub open spec fn opt_resource_of_agent(r: Option<agent::Resource>) -> Option<scheduler::Resource> {
    match r {
        Some(r) => Some(resource_of_agent(r)),
        None => None,
    }
}

/// An optional resource converted to the controller form.
pub open spec fn opt_controller_resource(r: Option<scheduler::Resource>) -> Option<
    controller::Resource,
> {
    match r {
        Some(r) => Some(controller_resource(r)),
        None => None,
    }
}

/// Converts resources between the message forms of the scheduler, the node agents and
/// the controller.
pub struct ResourceParser {}

impl ResourceParser {
    /// Converts a resource to the agent form.
    pub fn to_agent_resource(resource: scheduler::Resource) -> (r: agent::Resource)
        ensures
            r == agent_resource(resource),
    {
        agent::Resource {
            limit: match resource.limit {
                Some(s) => Some(Self::to_agent_resourcesummary(s)),
                None => None,
            },
            usage: match resource.usage {
                Some(s) => Some(Self::to_agent_resourcesummary(s)),
                None => None,
            },
        }
    }

    /// Converts a resource to the controller form.
    pub fn to_controller_resource(resource: scheduler::Resource) -> (r: controller::Resource)
        ensures
            r == controller_resource(resource),
    {
        controller::Resource {
            limit: match resource.limit {
                Some(s) => Some(Self::to_controller_resourcesummary(s)),
                None => None,
            },
            usage: match resource.usage {
                Some(s) => Some(Self::to_controller_resourcesummary(s)),
                None => None,
            },
        }
    }

    /// Converts an agent resource to the scheduler form.
    pub fn from_agent_resource(resource: agent::Resource) -> (r: scheduler::Resource)
        ensures
            r == resource_of_agent(resource),
    {
        scheduler::Resource {
            limit: match resource.limit {
                Some(s) => Some(Self::from_agent_resourcesummary(s)),
                None => None,
            },
            usage: match resource.usage {
                Some(s) => Some(Self::from_agent_resourcesummary(s)),
                None => None,
            },
        }
    }

    /// Converts a resource summary to the agent form.
    pub fn to_agent_resourcesummary(resource: scheduler::ResourceSummary) -> (r:
        agent::ResourceSummary)
        ensures
            r == agent_summary(resource),
    {
        agent::ResourceSummary { cpu: resource.cpu, memory: resource.memory, disk: resource.disk }
    }

    /// Converts a resource summary to the controller form.
    pub fn to_controller_resourcesummary(resource: scheduler::ResourceSummary) -> (r:
        controller::ResourceSummary)
        ensures
            r == controller_summary(resource),
    {
        controller::ResourceSummary {
            cpu: resource.cpu,
            memory: resource.memory,
            disk: resource.disk,
        }
    }

    /// Converts an agent resource summary to the scheduler form.
    pub fn from_agent_resourcesummary(resource: agent::ResourceSummary) -> (r:
        scheduler::ResourceSummary)
        ensures
            r == summary_of_agent(resource),
    {
        scheduler::ResourceSummary {
            cpu: resource.cpu,
            memory: resource.memory,
            disk: resource.disk,
        }
    }

    /// Converting a resource to the agent form and back gives the resource again, and
    /// converting an agent resource to the scheduler form and back gives it again.
    pub proof fn lemma_resource_round_trip(r: scheduler::Resource, a: agent::Resource)
        ensures
            resource_of_agent(agent_resource(r)) == r,
            agent_resource(resource_of_agent(a)) == a,
    {
    }
}

} // verus!
