use super::port::{agent_port, port_of_agent, PortParser};
use super::resource::{
    agent_resource, agent_summary, opt_agent_resource, opt_resource_of_agent, resource_of_agent,
    summary_of_agent, ResourceParser,
};
use super::status::StatusParser;
use crate::proto::{agent, controller, scheduler};
use vstd::prelude::*;

verus! {

/// `a` is the agent form of the scheduler instance `i`: every field carried over, the
/// resource and the ports converted.
pub open spec fn is_agent_instance_of(a: agent::Instance, i: scheduler::Instance) -> bool {
    &&& a.id == i.id
    &&& a.name == i.name
    &&& a.kind == i.kind
    &&& a.status == i.status
    &&& a.uri == i.uri
    &&& a.environment@ == i.environnement@
    &&& a.resource == opt_agent_resource(i.resource)
    &&& a.ports@ == i.ports@.map_values(|p: scheduler::Port| agent_port(p))
    &&& a.ip == i.ip
}

/// `i` is the scheduler form of the agent instance `a`: every field carried over, the
/// resource and the ports converted.
pub open spec fn is_instance_of_agent(i: scheduler::Instance, a: agent::Instance) -> bool {
    &&& i.id == a.id
    &&& i.name == a.name
    &&& i.kind == a.kind
    &&& i.status == a.status
    &&& i.uri == a.uri
    &&& i.environnement@ == a.environment@
    &&& i.resource == opt_resource_of_agent(a.resource)
    &&& i.ports@ == a.ports@.map_values(|p: agent::Port| port_of_agent(p))
    &&& i.ip == a.ip
}

/// Converts instances between the scheduler and the node agent forms, and builds the
/// placeholder instances that only carry an identifier.
pub struct InstanceParser {}

impl InstanceParser {
    /// Converts an instance to the form sent to the node agents.
    pub fn to_agent_instance(instance: scheduler::Instance) -> (r: agent::Instance)
        ensures
            is_agent_instance_of(r, instance),
            r.id == instance.id,
            r.name == instance.name,
            r.kind == instance.kind,
            r.status == instance.status,
            r.uri == instance.uri,
            r.environment@ == instance.environnement@,
            r.ip == instance.ip,
    {
        let resource = match instance.resource {
            Some(res) => Some(ResourceParser::to_agent_resource(res)),
            None => None,
        };
        agent::Instance {
            id: instance.id,
            name: instance.name,
            kind: instance.kind,
            status: instance.status,
            uri: instance.uri,
            environment: instance.environnement,
            resource,
            ports: PortParser::to_agent_ports(instance.ports),
            ip: instance.ip,
        }
    }

    /// The form sent to the node agents of an instance that stays with its owner.
    pub fn agent_request(instance: &scheduler::Instance) -> (r: agent::Instance)
        ensures
            is_agent_instance_of(r, *instance),
            r.id == instance.id,
            r.name == instance.name,
            r.kind == instance.kind,
            r.status == instance.status,
            r.uri == instance.uri,
            r.environment@ == instance.environnement@,
            r.ip == instance.ip,
    {
        let environment = instance.environnement.clone();
        proof {
            assert(environment@ =~= instance.environnement@);
        }
        let ports = instance.ports.clone();
        proof {
            assert(ports@ =~= instance.ports@);
        }
        let resource = match instance.resource {
            Some(res) => Some(ResourceParser::to_agent_resource(res)),
            None => None,
        };
        agent::Instance {
            id: instance.id.clone(),
            name: instance.name.clone(),
            kind: instance.kind,
            status: instance.status,
            uri: instance.uri.clone(),
            environment,
            resource,
            ports: PortParser::to_agent_ports(ports),
            ip: instance.ip.clone(),
        }
    }

    /// Converts an instance received from a node agent to the scheduler form.
    pub fn from_agent_instance(instance: agent::Instance) -> (r: scheduler::Instance)
        ensures
            is_instance_of_agent(r, instance),
            r.id == instance.id,
            r.name == instance.name,
            r.kind == instance.kind,
            r.status == instance.status,
            r.uri == instance.uri,
            r.environnement@ == instance.environment@,
            r.ip == instance.ip,
    {
        let resource = match instance.resource {
            Some(res) => Some(ResourceParser::from_agent_resource(res)),
            None => None,
        };
        scheduler::Instance {
            id: instance.id,
            name: instance.name,
            kind: instance.kind,
            status: instance.status,
            uri: instance.uri,
            environnement: instance.environment,
            resource,
            ports: PortParser::from_agent_ports(instance.ports),
            ip: instance.ip,
        }
    }

    /// Converts a resource to the agent form.
    pub fn to_agent_resource(resource: scheduler::Resource) -> (r: agent::Resource)
        ensures
            r == agent_resource(resource),
    {
        ResourceParser::to_agent_resource(resource)
    }

    /// Converts an agent resource to the scheduler form.
    pub fn from_agent_resource(resource: agent::Resource) -> (r: scheduler::Resource)
        ensures
            r == resource_of_agent(resource),
    {
        ResourceParser::from_agent_resource(resource)
    }

    /// Converts a resource summary to the agent form.
    pub fn to_agent_resourcesummary(resource: scheduler::ResourceSummary) -> (r:
        agent::ResourceSummary)
        ensures
            r == agent_summary(resource),
    {
        ResourceParser::to_agent_resourcesummary(resource)
    }

    /// Converts an agent resource summary to the scheduler form.
    pub fn from_agent_resourcesummary(resource: agent::ResourceSummary) -> (r:
        scheduler::ResourceSummary)
        ensures
            r == summary_of_agent(resource),
    {
        ResourceParser::from_agent_resourcesummary(resource)
    }

    /// Converts each port to the agent form, keeping the order.
    pub fn to_agent_ports(ports: Vec<scheduler::Port>) -> (r: Vec<agent::Port>)
        ensures
            r@ == ports@.map_values(|p: scheduler::Port| agent_port(p)),
    {
        PortParser::to_agent_ports(ports)
    }

    /// Converts each agent port to the scheduler form, keeping the order.
    pub fn from_agent_ports(ports: Vec<agent::Port>) -> (r: Vec<scheduler::Port>)
        ensures
            r@ == ports@.map_values(|p: agent::Port| port_of_agent(p)),
    {
        PortParser::from_agent_ports(ports)
    }

    /// Converts a status report of a node agent to the form sent to the controller.
    pub fn from_agent_instance_status(status: agent::InstanceStatus) -> (r:
        scheduler::InstanceStatus)
        ensures
            r.id == status.id,
            r.status == status.status,
            r.status_description == status.description,
            r.resource == opt_resource_of_agent(status.resource),
    {
        StatusParser::from_agent_instance_status(status)
    }

    /// An agent instance that only carries `id`: empty strings and lists, no resource, a
    /// container, with the `Stopping` status of the scheduler.
    pub fn fake_agent_instance(id: String) -> (r: agent::Instance)
        ensures
            r.id == id,
            r.name@ == Seq::<char>::empty(),
            r.kind == agent::Type::Container.value(),
            r.status == scheduler::Status::Stopping.value(),
            r.uri@ == Seq::<char>::empty(),
            r.environment@ == Seq::<String>::empty(),
            r.resource is None,
            r.ports@ == Seq::<agent::Port>::empty(),
            r.ip@ == Seq::<char>::empty(),
            is_fake_agent_instance(r, id@),
    {
        agent::Instance {
            id,
            name: String::new(),
            kind: agent::Type::Container.to_i32(),
            status: scheduler::Status::Stopping.to_i32(),
            uri: String::new(),
            environment: Vec::new(),
            resource: None,
            ports: Vec::new(),
            ip: String::new(),
        }
    }

    /// A controller instance that only carries `id`: empty strings and lists, no resource,
    /// a container, in the `Stopping` state of the scheduler.
    pub fn fake_controller_instance(id: String) -> (r: controller::Instance)
        ensures
            is_fake_controller_instance(r, id@),
    {
        controller::Instance {
            id,
            name: String::new(),
            kind: agent::Type::Container.to_i32(),
            state: scheduler::Status::Stopping.to_i32(),
            uri: String::new(),
            environnement: Vec::new(),
            resource: None,
            ports: Vec::new(),
            ip: String::new(),
        }
    }

    /// The two forms of an instance name the same workload: same id, name, image uri,
    /// kind, status, environment and address, whichever way the conversion goes.
    pub proof fn lemma_conversions_keep_fields(i: scheduler::Instance, a: agent::Instance)
        ensures
            is_agent_instance_of(a, i) ==> a.id == i.id && a.name == i.name && a.uri == i.uri
                && a.kind == i.kind && a.status == i.status && a.environment@ == i.environnement@
                && a.ip == i.ip,
            is_instance_of_agent(i, a) ==> a.id == i.id && a.name == i.name && a.uri == i.uri
                && a.kind == i.kind && a.status == i.status && a.environment@ == i.environnement@
                && a.ip == i.ip,
    {
    }

    /// Converting an instance to the agent form and back gives the same instance.
    pub proof fn lemma_instance_round_trip(
        i: scheduler::Instance,
        a: agent::Instance,
        j: scheduler::Instance,
    )
        requires
            is_agent_instance_of(a, i),
            is_instance_of_agent(j, a),
        ensures
            j.id == i.id,
            j.name == i.name,
            j.kind == i.kind,
            j.status == i.status,
            j.uri == i.uri,
            j.environnement@ == i.environnement@,
            j.resource == i.resource,
            j.ports@ == i.ports@,
            j.ip == i.ip,
    {
        PortParser::lemma_ports_round_trip(i.ports@);
        match i.resource {
            Some(r) => ResourceParser::lemma_resource_round_trip(r, agent_resource(r)),
            None => {},
        }
    }
}

/// `a` is the agent instance that only carries the id `id` (see `fake_agent_instance`).
pub open spec fn is_fake_agent_instance(a: agent::Instance, id: Seq<char>) -> bool {
    &&& a.id@ == id
    &&& a.name@ == Seq::<char>::empty()
    &&& a.kind == agent::Type::Container.value()
    &&& a.status == scheduler::Status::Stopping.value()
    &&& a.uri@ == Seq::<char>::empty()
    &&& a.environment@ == Seq::<String>::empty()
    &&& a.resource is None
    &&& a.ports@ == Seq::<agent::Port>::empty()
    &&& a.ip@ == Seq::<char>::empty()
}

/// `c` is the placeholder controller instance that carries the identifier `id`.
pub open spec fn is_fake_controller_instance(c: controller::Instance, id: Seq<char>) -> bool {
    &&& c.id@ == id
    &&& c.name@ == Seq::<char>::empty()
    &&& c.kind == agent::Type::Container.value()
    &&& c.state == scheduler::Status::Stopping.value()
    &&& c.uri@ == Seq::<char>::empty()
    &&& c.environnement@ == Seq::<String>::empty()
    &&& c.resource is None
    &&& c.ports@ == Seq::<controller::Port>::empty()
    &&& c.ip@ == Seq::<char>::empty()
}

} // verus!
