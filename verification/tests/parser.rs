use rik::parser::instance::InstanceParser;
use rik::parser::port::PortParser;
use rik::parser::resource::ResourceParser;
use rik::parser::status::StatusParser;
use rik::proto::scheduler::{Instance, NodeStatus, Port, Resource, ResourceSummary, Status};
use rik::proto::{agent, controller};

fn sample_instance() -> Instance {
    Instance {
        id: "id".to_string(),
        name: "name".to_string(),
        kind: 0,
        status: Status::Running.to_i32(),
        uri: "debian:latest".to_string(),
        environnement: vec!["A=0".to_string()],
        resource: Some(Resource {
            limit: Some(ResourceSummary { cpu: 1, memory: 2, disk: 3 }),
            usage: None,
        }),
        ports: vec![Port { source: 80, destination: 8080 }, Port { source: 1, destination: 2 }],
        ip: "10.0.0.2".to_string(),
    }
}

#[test]
fn instance_round_trip_through_agent_form() {
    let i = sample_instance();
    let a = InstanceParser::to_agent_instance(i.clone());
    assert_eq!(a.environment, vec!["A=0".to_string()]);
    assert_eq!(a.ports[0], agent::Port { source: 80, destination: 8080 });
    assert_eq!(a.resource.unwrap().limit.unwrap().disk, 3);
    assert_eq!(InstanceParser::from_agent_instance(a), i);
}

#[test]
fn resource_conversions_keep_amounts() {
    let r = Resource {
        limit: Some(ResourceSummary { cpu: 4, memory: 5, disk: 6 }),
        usage: Some(ResourceSummary { cpu: 1, memory: 2, disk: 3 }),
    };
    let a = ResourceParser::to_agent_resource(r);
    assert_eq!(ResourceParser::from_agent_resource(a), r);
    let c = ResourceParser::to_controller_resource(r);
    assert_eq!(c.usage, Some(controller::ResourceSummary { cpu: 1, memory: 2, disk: 3 }));
    assert_eq!(c.limit, Some(controller::ResourceSummary { cpu: 4, memory: 5, disk: 6 }));
    let empty = Resource { limit: None, usage: None };
    assert_eq!(ResourceParser::to_agent_resource(empty), agent::Resource { limit: None, usage: None });
    assert_eq!(InstanceParser::to_agent_resourcesummary(ResourceSummary { cpu: 7, memory: 8, disk: 9 }).memory, 8);
}

#[test]
fn ports_round_trip() {
    let ports = vec![Port { source: 1, destination: 2 }, Port { source: 3, destination: 4 }];
    let back = PortParser::from_agent_ports(PortParser::to_agent_ports(ports.clone()));
    assert_eq!(back, ports);
    assert_eq!(PortParser::to_agent_ports(Vec::new()), Vec::new());
}

#[test]
fn fake_instances_only_carry_the_id() {
    let a = InstanceParser::fake_agent_instance("x".to_string());
    assert_eq!(a.id, "x");
    assert_eq!(a.name, "");
    assert_eq!(a.status, Status::Stopping.to_i32());
    assert_eq!(a.kind, agent::Type::Container.to_i32());
    assert!(a.resource.is_none() && a.ports.is_empty() && a.environment.is_empty());
    let c = InstanceParser::fake_controller_instance("y".to_string());
    assert_eq!(c.id, "y");
    assert_eq!(c.state, Status::Stopping.to_i32());
    assert_eq!(c.ip, "");
}

#[test]
fn node_state_mapping() {
    assert_eq!(StatusParser::to_node_state_controller(Status::Starting), controller::NodeState::Registering);
    assert_eq!(StatusParser::to_node_state_controller(Status::Running), controller::NodeState::Registered);
    assert_eq!(StatusParser::to_node_state_controller(Status::Stopping), controller::NodeState::Unregistering);
    assert_eq!(StatusParser::to_node_state_controller(Status::Stopped), controller::NodeState::Unregistered);
    assert_eq!(StatusParser::to_node_state_controller(Status::Terminated), controller::NodeState::Unregistered);
    assert_eq!(StatusParser::to_node_state_controller(Status::Failed), controller::NodeState::Failing);
    assert_eq!(StatusParser::to_node_state_controller(Status::Scheduling), controller::NodeState::Failing);
}

#[test]
fn node_status_to_controller() {
    let s = NodeStatus {
        id: "n".to_string(),
        status: Status::Running.to_i32(),
        status_description: "fine".to_string(),
        resource: None,
    };
    let c = StatusParser::to_controller_node_status(s);
    assert_eq!(c.id, "n");
    assert_eq!(c.state, controller::NodeState::Registered.to_i32());
    assert_eq!(c.status_description, "fine");
    assert!(c.instances.is_empty());
    let unknown = NodeStatus { id: "n".to_string(), status: 99, status_description: String::new(), resource: None };
    assert_eq!(StatusParser::to_controller_node_status(unknown).state, controller::NodeState::Failing.to_i32());
}

#[test]
fn agent_status_to_scheduler_status() {
    let s = agent::InstanceStatus {
        id: "w".to_string(),
        status: agent::Status::Crashed.to_i32(),
        description: "boom".to_string(),
        resource: Some(agent::Resource { limit: None, usage: Some(agent::ResourceSummary { cpu: 1, memory: 1, disk: 1 }) }),
    };
    let r = StatusParser::from_agent_instance_status(s.clone());
    assert_eq!(r.id, "w");
    assert_eq!(r.status, agent::Status::Crashed.to_i32());
    assert_eq!(r.status_description, "boom");
    assert_eq!(r.resource.unwrap().usage.unwrap().cpu, 1);
    assert_eq!(InstanceParser::from_agent_instance_status(s).status_description, "boom");
}

#[test]
fn status_wire_values_round_trip() {
    for v in 0..10 {
        let s = Status::from_i32(v).unwrap();
        assert_eq!(s.to_i32(), v);
    }
    assert_eq!(Status::from_i32(10), None);
    assert_eq!(Status::from_i32(-1), None);
    for v in 0..9 {
        assert_eq!(agent::Status::from_i32(v).unwrap().to_i32(), v);
    }
    assert_eq!(agent::Signal::from_i32(0), Some(agent::Signal::Stop));
    assert_eq!(agent::Signal::from_i32(1), Some(agent::Signal::Kill));
    let mut i = sample_instance();
    i.status = 42;
    assert_eq!(i.status(), Status::Unknown);
}
