use rik::config::Config;
use rik::instance::InstanceScheduled;
use rik::node::{IpAddress, Node, NodeRegistered};
use rik::orchestrator::Orchestrator;
use rik::proto::agent;
use rik::proto::scheduler::{Instance, NodeStatus, Resource, ResourceSummary, Status};
use rik::storage::Storage;
use rik::{OrchestratorError, ProxyError};

fn summary(cpu: u64, memory: u64, disk: u64) -> ResourceSummary {
    ResourceSummary { cpu, memory, disk }
}

fn registered(id: &str, status: Status, limit: Option<ResourceSummary>) -> NodeRegistered {
    NodeRegistered {
        id: id.to_string(),
        node: Node {
            id: id.to_string(),
            status,
            resource: Some(Resource { limit, usage: None }),
        },
        address: IpAddress::V4([127, 0, 0, 1]),
        status_stream_open: false,
        grpc_connected: false,
        instances: Storage::new(),
    }
}

fn instance(id: &str, limit: Option<ResourceSummary>) -> Instance {
    Instance {
        id: id.to_string(),
        name: id.to_string(),
        kind: 0,
        status: 7,
        uri: "127.0.0.1".to_string(),
        environnement: Vec::new(),
        resource: Some(Resource { limit, usage: None }),
        ports: Vec::new(),
        ip: "127.0.0.1".to_string(),
    }
}

#[test]
fn find_best_node_enough_resources() {
    let mut nodes: Storage<NodeRegistered> = Storage::new();
    nodes.update("node", registered("node", Status::Running, Some(summary(20, 20, 20))));
    nodes.update("node2", registered("node2", Status::Running, Some(summary(50, 50, 50))));
    let orchestrator = Orchestrator::new(nodes, Config::default());
    let node_id = orchestrator.find_best_node(&instance("instance", Some(summary(30, 10, 5)))).unwrap();
    assert_eq!(node_id, "node2");
}

#[test]
fn find_best_node_not_enough_resources() {
    let mut nodes: Storage<NodeRegistered> = Storage::new();
    nodes.update("node", registered("node", Status::Running, Some(summary(20, 20, 20))));
    nodes.update("node2", registered("node2", Status::Running, Some(summary(50, 50, 50))));
    if Orchestrator::new(nodes, Config::default())
        .find_best_node(&instance("instance", Some(summary(30, 48, 5))))
        .is_ok()
    {
        panic!("should not find a node");
    }
}

#[test]
fn find_best_node_no_nodes_available() {
    let nodes: Storage<NodeRegistered> = Storage::new();
    if Orchestrator::new(nodes, Config::default())
        .find_best_node(&instance("instance", Some(summary(0, 0, 0))))
        .is_ok()
    {
        panic!("should not find a node");
    }
}

#[test]
fn find_best_node_errors() {
    let nodes: Storage<NodeRegistered> = Storage::new();
    let orchestrator = Orchestrator::new(nodes, Config::default());
    assert_eq!(
        orchestrator.find_best_node(&instance("i", Some(summary(1, 1, 1)))),
        Err(OrchestratorError::NoAvailableNodes)
    );
    let mut nodes: Storage<NodeRegistered> = Storage::new();
    nodes.update("stopped", registered("stopped", Status::Stopped, Some(summary(50, 50, 50))));
    let orchestrator = Orchestrator::new(nodes, Config::default());
    assert_eq!(
        orchestrator.find_best_node(&instance("i", Some(summary(1, 1, 1)))),
        Err(OrchestratorError::NoAvailableNodes)
    );
    let mut nodes: Storage<NodeRegistered> = Storage::new();
    nodes.update("n", registered("n", Status::Running, Some(summary(50, 50, 50))));
    nodes.update("m", registered("m", Status::Running, None));
    let orchestrator = Orchestrator::new(nodes, Config::default());
    assert_eq!(
        orchestrator.find_best_node(&instance("i", None)),
        Err(OrchestratorError::NotEnoughResources)
    );
    assert_eq!(orchestrator.find_best_node(&instance("i", Some(summary(1, 1, 1)))), Ok("n".to_string()));
}

#[test]
fn find_best_node_ninety_five_percent_boundary() {
    let mut nodes: Storage<NodeRegistered> = Storage::new();
    nodes.update("n", registered("n", Status::Running, Some(summary(20, 20, 20))));
    let orchestrator = Orchestrator::new(nodes, Config::default());
    // 19 is exactly 95% of 20: not below it.
    assert_eq!(
        orchestrator.find_best_node(&instance("i", Some(summary(19, 1, 1)))),
        Err(OrchestratorError::NotEnoughResources)
    );
    assert_eq!(orchestrator.find_best_node(&instance("i", Some(summary(18, 1, 1)))), Ok("n".to_string()));
}

#[test]
fn find_best_node_counts_scheduled_instances_and_breaks_ties_by_order() {
    let mut nodes: Storage<NodeRegistered> = Storage::new();
    let mut busy = registered("busy", Status::Running, Some(summary(100, 100, 100)));
    busy.instances.update(
        "old",
        InstanceScheduled::new("old".to_string(), instance("old", Some(summary(50, 50, 50))), None),
    );
    nodes.update("busy", busy);
    nodes.update("idle1", registered("idle1", Status::Running, Some(summary(100, 100, 100))));
    nodes.update("idle2", registered("idle2", Status::Running, Some(summary(100, 100, 100))));
    let orchestrator = Orchestrator::new(nodes, Config::default());
    assert_eq!(
        orchestrator.find_best_node(&instance("i", Some(summary(10, 10, 10)))),
        Ok("idle1".to_string())
    );
    // The busy node cannot take 50 more (100 would not stay below 95).
    let mut nodes: Storage<NodeRegistered> = Storage::new();
    let mut busy = registered("busy", Status::Running, Some(summary(100, 100, 100)));
    busy.instances.update(
        "old",
        InstanceScheduled::new("old".to_string(), instance("old", Some(summary(50, 50, 50))), None),
    );
    nodes.update("busy", busy);
    let orchestrator = Orchestrator::new(nodes, Config::default());
    assert_eq!(
        orchestrator.find_best_node(&instance("i", Some(summary(45, 1, 1)))),
        Err(OrchestratorError::NotEnoughResources)
    );
    assert_eq!(orchestrator.find_best_node(&instance("i", Some(summary(44, 1, 1)))), Ok("busy".to_string()));
}

#[test]
fn find_best_node_compares_large_amounts_exactly() {
    // Loads 1/3 + 1/3 + 1/3 and (1/3 + 1) + 1/3 - 1/3 differ only in how they are split;
    // the node with the lower exact sum of ratios wins, even with amounts near 2^63.
    let big: u64 = 3 * (1u64 << 61);
    let third: u64 = 1u64 << 61;
    let mut nodes: Storage<NodeRegistered> = Storage::new();
    nodes.update("a", registered("a", Status::Running, Some(summary(big, big, big))));
    nodes.update("b", registered("b", Status::Running, Some(summary(big, big, big + 3))));
    let orchestrator = Orchestrator::new(nodes, Config::default());
    assert_eq!(
        orchestrator.find_best_node(&instance("i", Some(summary(third, third, third)))),
        Ok("b".to_string())
    );
}

#[test]
fn node_lifecycle_in_orchestrator() {
    let nodes: Storage<NodeRegistered> = Storage::new();
    let mut orchestrator = Orchestrator::new(nodes, Config::default());
    let mut nr = NodeRegistered::new(
        "n1".to_string(),
        Node { id: "n1".to_string(), status: Status::Starting, resource: None },
        IpAddress::V4([10, 0, 0, 1]),
    );
    nr.connect();
    assert!(nr.open_node_status_stream());
    assert!(!nr.open_node_status_stream());
    let report = nr.update_status(Status::Starting, None, None).unwrap();
    assert_eq!(report.id, "n1");
    assert_eq!(report.state, Status::Starting.to_i32());
    assert_eq!(report.status_description, "");
    assert_eq!(report.resource, None);
    orchestrator.register_node(nr);
    assert!(orchestrator.contains_node("n1"));

    let status = NodeStatus {
        id: "n1".to_string(),
        status: Status::Running.to_i32(),
        status_description: "up".to_string(),
        resource: Some(Resource { limit: Some(summary(100, 100, 100)), usage: None }),
    };
    let report = orchestrator.update_node_status("n1", status.clone()).unwrap();
    assert_eq!(report.state, Status::Running.to_i32());
    assert_eq!(report.status_description, "up");
    assert_eq!(report.resource.unwrap().limit.unwrap().cpu, 100);
    assert_eq!(orchestrator.update_node_status("nope", status), Err(OrchestratorError::NodeNotFound));

    // Schedule an instance on it.
    let inst = instance("i1", Some(summary(10, 10, 10)));
    let target = orchestrator.find_best_node(&inst).unwrap();
    assert_eq!(target, "n1");
    let request = orchestrator.create_instance(&target, inst.clone()).unwrap();
    assert_eq!(request.id, "i1");
    let mut scheduled = InstanceScheduled::new("i1".to_string(), inst, None);
    let report = scheduled.change_status(Status::Scheduled, Some("placed".to_string()));
    assert_eq!(report.status, Status::Scheduled.to_i32());
    assert_eq!(report.status_description, "placed");
    assert_eq!(report.resource, None);
    orchestrator.store_instance(&target, scheduled).unwrap();
    assert_eq!(orchestrator.instance_count("n1"), Some(1));

    // Stop and destroy decide which node to signal.
    let (node, stop) = orchestrator.stop_instance("i1".to_string()).unwrap().unwrap();
    assert_eq!(node, "n1");
    assert_eq!(stop.signal, agent::Signal::Stop.to_i32());
    assert_eq!(stop.instance.unwrap().id, "i1");
    let (_, kill) = orchestrator.destroy_instance("i1".to_string()).unwrap().unwrap();
    assert_eq!(kill.signal, agent::Signal::Kill.to_i32());
    assert_eq!(orchestrator.stop_instance("zz".to_string()), Err(OrchestratorError::InstanceNotFound));

    // Terminating makes both decisions no-ops.
    let report = orchestrator.terminate_instance("i1", Some("done".to_string())).unwrap();
    assert_eq!(report.id, "i1");
    assert_eq!(report.status, Status::Terminated.to_i32());
    assert_eq!(report.status_description, "done");
    assert_eq!(orchestrator.destroy_instance("i1".to_string()), Ok(None));
    assert_eq!(orchestrator.terminate_node_instance("n1", 0).unwrap().status_description, "Node is terminated");
    assert_eq!(orchestrator.terminate_node_instance("n1", 1), Err(OrchestratorError::InstanceNotFound));

    orchestrator.delete_instance("i1").unwrap();
    assert_eq!(orchestrator.instance_count("n1"), Some(0));
    assert_eq!(orchestrator.delete_instance("i1"), Err(OrchestratorError::InstanceNotFound));

    let report = orchestrator.mark_node_terminated("n1", Some("bye".to_string())).unwrap();
    assert_eq!(report.state, Status::Terminated.to_i32());
    assert_eq!(report.resource, None);
    orchestrator.unregister_node("n1").unwrap();
    assert!(!orchestrator.contains_node("n1"));
    assert_eq!(orchestrator.unregister_node("n1"), Err(OrchestratorError::NodeNotFound));
}

#[test]
fn node_without_client_or_stream() {
    let nr = registered("n", Status::Running, Some(summary(1, 1, 1)));
    assert_eq!(nr.stop_instance("i".to_string()), Err(ProxyError::GrpcClientNotFound));
    assert_eq!(nr.create_instance(instance("i", None)), Err(ProxyError::GrpcClientNotFound));
    let mut nr = nr;
    assert_eq!(nr.update_status(Status::Stopped, None, None), Err(ProxyError::GrpcStreamNotFound));
    assert_eq!(nr.node.status, Status::Stopped);
}

#[test]
fn node_report_lists_instances() {
    let mut nr = registered("n", Status::Running, Some(summary(1, 1, 1)));
    nr.open_node_status_stream();
    nr.instances.update("a", InstanceScheduled::new("a".to_string(), instance("a", None), None));
    nr.instances.update("b", InstanceScheduled::new("b".to_string(), instance("b", None), None));
    let report = nr
        .update_status(Status::Running, Some("ok".to_string()), Some(Resource { limit: Some(summary(5, 6, 7)), usage: None }))
        .unwrap();
    assert_eq!(report.instances.len(), 2);
    assert_eq!(report.instances[0].id, "a");
    assert_eq!(report.instances[1].id, "b");
    assert_eq!(report.instances[0].state, Status::Stopping.to_i32());
    assert_eq!(report.resource.unwrap().limit.unwrap().disk, 7);
}

#[test]
fn change_status_running_reports_resource() {
    let inst = instance("i", Some(summary(1, 2, 3)));
    let mut scheduled = InstanceScheduled::new("i".to_string(), inst, Some("n".to_string()));
    let report = scheduled.change_status(Status::Running, None);
    assert_eq!(report.resource.unwrap().limit.unwrap().memory, 2);
    assert_eq!(scheduled.instance.status(), Status::Running);
}

fn running_orchestrator() -> Orchestrator {
    let mut orchestrator = Orchestrator::new(Storage::new(), Config::default());
    let node = Node { id: "n1".to_string(), status: Status::Starting, resource: None };
    let (nr, report) = NodeRegistered::registering(node, IpAddress::V4([10, 0, 0, 1])).unwrap();
    assert!(nr.grpc_connected);
    assert!(nr.status_stream_open);
    assert_eq!(nr.node.status, Status::Starting);
    assert_eq!(report.id, "n1");
    assert_eq!(report.state, Status::Starting.to_i32());
    assert!(report.instances.is_empty());
    orchestrator.register_node(nr);
    let status = NodeStatus {
        id: "n1".to_string(),
        status: Status::Running.to_i32(),
        status_description: String::new(),
        resource: Some(Resource { limit: Some(summary(100, 100, 100)), usage: None }),
    };
    orchestrator.update_node_status("n1", status).unwrap();
    orchestrator
}

#[test]
fn creation_plan_sequence() {
    let mut orchestrator = running_orchestrator();
    let plan = orchestrator.plan_instance_creation(instance("i1", Some(summary(10, 10, 10))));
    assert_eq!(plan.scheduling_report.id, "i1");
    assert_eq!(plan.scheduling_report.status, Status::Scheduling.to_i32());
    assert_eq!(plan.scheduling_report.status_description, "");
    assert_eq!(plan.chosen, Ok("n1".to_string()));
    let placement = plan.placement.unwrap();
    assert_eq!(placement.node_id, "n1");
    assert_eq!(placement.request.id, "i1");
    assert_eq!(placement.request.status, Status::Scheduling.to_i32());
    assert_eq!(placement.scheduled_report.status, Status::Scheduled.to_i32());
    assert_eq!(placement.scheduled_report.status_description, "Instance is scheduled on node: \"n1\"");
    assert_eq!(placement.scheduled.instance.status, Status::Scheduled.to_i32());
    assert_eq!(orchestrator.instance_count("n1"), Some(0));
    orchestrator.store_instance(&placement.node_id, placement.scheduled).unwrap();
    assert_eq!(orchestrator.instance_count("n1"), Some(1));

    let refused = orchestrator.plan_instance_creation(instance("i2", Some(summary(90, 10, 10))));
    assert_eq!(refused.chosen, Err(OrchestratorError::NotEnoughResources));
    assert_eq!(refused.placement.unwrap_err(), OrchestratorError::NotEnoughResources);
    assert_eq!(refused.scheduling_report.status, Status::Scheduling.to_i32());

    let empty = Orchestrator::new(Storage::new(), Config::default());
    let none = empty.plan_instance_creation(instance("i3", Some(summary(1, 1, 1))));
    assert_eq!(none.placement.unwrap_err(), OrchestratorError::NoAvailableNodes);
}

#[test]
fn stop_instruction_carries_placeholder_instance() {
    let mut orchestrator = running_orchestrator();
    let plan = orchestrator.plan_instance_creation(instance("i1", Some(summary(10, 10, 10))));
    let placement = plan.placement.unwrap();
    orchestrator.store_instance(&placement.node_id, placement.scheduled).unwrap();
    let (_, stop) = orchestrator.stop_instance("i1".to_string()).unwrap().unwrap();
    let inst = stop.instance.unwrap();
    assert_eq!(inst.id, "i1");
    assert_eq!(inst.name, "");
    assert_eq!(inst.status, Status::Stopping.to_i32());
    assert_eq!(inst.kind, agent::Type::Container.to_i32());
    assert!(inst.resource.is_none());
    assert!(inst.ports.is_empty() && inst.environment.is_empty());
}

#[test]
fn deletion_and_node_termination_steps() {
    let mut orchestrator = running_orchestrator();
    for id in ["i1", "i2"] {
        let plan = orchestrator.plan_instance_creation(instance(id, Some(summary(10, 10, 10))));
        let placement = plan.placement.unwrap();
        orchestrator.store_instance(&placement.node_id, placement.scheduled).unwrap();
    }
    assert_eq!(orchestrator.begin_instance_deletion("zz", None, true), Err(OrchestratorError::InstanceNotFound));
    assert_eq!(orchestrator.begin_instance_deletion("i1", None, false), Ok(None));
    let report = orchestrator.begin_instance_deletion("i1", Some("crashed".to_string()), true).unwrap().unwrap();
    assert_eq!(report.status, Status::Terminated.to_i32());
    assert_eq!(report.status_description, "crashed");
    orchestrator.delete_instance("i1").unwrap();
    assert_eq!(orchestrator.instance_count("n1"), Some(1));

    assert_eq!(orchestrator.mark_node_terminated("zz", None), Err(OrchestratorError::NodeNotFound));
    let report = orchestrator.mark_node_terminated("n1", Some("gone".to_string())).unwrap();
    assert_eq!(report.state, Status::Terminated.to_i32());
    assert_eq!(report.status_description, "gone");
    assert_eq!(report.instances.len(), 1);
    assert_eq!(orchestrator.instance_count("n1"), Some(1));
    let instance_report = orchestrator.terminate_node_instance("n1", 0).unwrap();
    assert_eq!(instance_report.id, "i2");
    assert_eq!(instance_report.status, Status::Terminated.to_i32());
    assert_eq!(instance_report.status_description, "Node is terminated");
    assert_eq!(orchestrator.destroy_instance("i2".to_string()), Ok(None));
    orchestrator.unregister_node("n1").unwrap();
    assert!(!orchestrator.contains_node("n1"));
}

#[test]
fn running_status_without_resource_on_closed_stream() {
    let mut orchestrator = Orchestrator::new(Storage::new(), Config::default());
    orchestrator.register_node(registered("n", Status::Starting, None));
    let status = NodeStatus {
        id: "n".to_string(),
        status: Status::Running.to_i32(),
        status_description: String::new(),
        resource: None,
    };
    assert_eq!(
        orchestrator.update_node_status("n", status),
        Err(OrchestratorError::FromProxyError(ProxyError::GrpcStreamNotFound))
    );
}

#[test]
fn connection_retries() {
    assert!(rik::config::retry_connection(0));
    assert!(rik::config::retry_connection(10));
    assert!(!rik::config::retry_connection(11));
}
