use rik::config::{Config, NodeAgentConfig};
use rik::event::{
    node_stream_step, InstanceCreateHandler, NodeRegisterHandler, NodeStreamAction, NodeStreamEvent,
    NodeUnregisterHandler, StreamEnd,
};
use rik::listener::{
    convert_checked_status, convert_status, ContainerListener, ContainerState, CpuStats, HealthState,
    ListenerAction, WorkloadListenerError,
};
use rik::proto::agent;
use rik::proto::scheduler::Status;
use rik::system;
use rik::text::{enclosed, orchestrator_failure, scheduled_description, scheduled_on};
use rik::workload::{container_limits_fit, container_settings, Container, RpcCode, Workload, WorkloadManager, WorkloadManagerError, WorkloadRunner};
use rik::{OrchestratorError, ProxyError};

#[test]
fn default_configurations() {
    let c = Config::default();
    assert_eq!(c.host, "127.0.0.1");
    assert_eq!(c.port, 50052);
    let a = NodeAgentConfig::default();
    assert_eq!(a.server.port, 50053);
    assert_eq!(a.client.port, 50052);
    assert_eq!(a.client.host, "127.0.0.1");
}

#[test]
fn error_texts_match_debug() {
    let errors = vec![
        OrchestratorError::NoAvailableNodes,
        OrchestratorError::NodeNotFound,
        OrchestratorError::InstanceNotFound,
        OrchestratorError::NetworkError("a \"quoted\"\nline".to_string()),
        OrchestratorError::NotEnoughResources,
        OrchestratorError::FromProxyError(ProxyError::GrpcClientNotFound),
        OrchestratorError::FromProxyError(ProxyError::ChannelSenderError),
        OrchestratorError::InvalidWorkload,
    ];
    for e in errors {
        assert_eq!(e.debug_text(), format!("{:?}", e));
        assert_eq!(orchestrator_failure(&e), format!("Error thrown by the orchestrator: {:?}", e));
    }
    let status_error = OrchestratorError::FromProxyError(ProxyError::TonicStatusError(
        "Status { code: Internal, message: \"x\" }".to_string(),
    ));
    assert_eq!(
        orchestrator_failure(&status_error),
        "Error thrown by the orchestrator: FromProxyError(TonicStatusError(Status { code: Internal, message: \"x\" }))"
    );
    assert_eq!(scheduled_description("a\"b"), "Instance is scheduled on node: \"a\\\"b\"");
    assert_eq!(scheduled_description("n1"), format!("Instance is scheduled on node: {:?}", "n1"));
    assert_eq!(scheduled_on("\"n1\""), "Instance is scheduled on node: \"n1\"");
    assert_eq!(enclosed("NetworkError(", "\"down\""), "NetworkError(\"down\")");
}

#[test]
fn handler_answers() {
    let ok = NodeRegisterHandler::response(&Ok(()));
    assert_eq!(ok.code, 0);
    assert_eq!(ok.description, "Welcome to the cluster");
    let err = NodeRegisterHandler::response(&Err(OrchestratorError::NodeNotFound));
    assert_eq!(err.code, 1);
    assert_eq!(err.description, "Error thrown by the orchestrator: NodeNotFound");
    let bye = NodeUnregisterHandler::response(&Ok(()));
    assert_eq!((bye.code, bye.description.as_str()), (0, "Bye from the cluster"));
    let failed = InstanceCreateHandler::failure_status("i".to_string(), &OrchestratorError::NoAvailableNodes);
    assert_eq!(failed.status, Status::Failed.to_i32());
    assert_eq!(failed.status_description, "Error thrown by the orchestrator: NoAvailableNodes");
    assert_eq!(InstanceCreateHandler::stream_end(Some(agent::Status::Terminated)), StreamEnd::Terminated);
    assert_eq!(InstanceCreateHandler::stream_end(Some(agent::Status::Failed)), StreamEnd::Terminated);
    assert_eq!(InstanceCreateHandler::stream_end(Some(agent::Status::Running)), StreamEnd::Crashed);
    assert_eq!(InstanceCreateHandler::stream_end(None), StreamEnd::Crashed);
}

#[test]
fn new_node_has_uuid_identifier() {
    let a = NodeRegisterHandler::new_node();
    let b = NodeRegisterHandler::new_node();
    assert_eq!(a.id.len(), 36);
    assert_eq!(a.id.chars().nth(14), Some('4'));
    assert!(matches!(a.id.chars().nth(19), Some('8' | '9' | 'a' | 'b')));
    assert_eq!(a.status, Status::Starting);
    assert!(a.resource.is_none());
    assert_ne!(a.id, b.id);
    let c = NodeRegisterHandler::starting_node("node-1".to_string());
    assert_eq!(c.id, "node-1");
    assert_eq!(c.status, Status::Starting);
    assert!(c.resource.is_none());
}

#[test]
fn container_status_conversion() {
    assert_eq!(convert_status(None), agent::Status::Running);
    assert_eq!(convert_status(Some(ContainerState::Running)), agent::Status::Running);
    assert_eq!(convert_status(Some(ContainerState::Removing)), agent::Status::Destroying);
    assert_eq!(convert_status(Some(ContainerState::Exited)), agent::Status::Terminated);
    assert_eq!(convert_status(Some(ContainerState::Dead)), agent::Status::Crashed);
    assert_eq!(convert_status(Some(ContainerState::Paused)), agent::Status::Running);
}

#[test]
fn health_checked_status_conversion() {
    assert_eq!(convert_checked_status(ContainerState::Running, None), agent::Status::Running);
    assert_eq!(
        convert_checked_status(ContainerState::Running, Some(HealthState::Starting)),
        agent::Status::Starting
    );
    assert_eq!(
        convert_checked_status(ContainerState::Exited, Some(HealthState::Healthy)),
        agent::Status::Terminated
    );
    assert_eq!(convert_checked_status(ContainerState::Removing, None), agent::Status::Destroying);
    assert_eq!(convert_checked_status(ContainerState::Dead, Some(HealthState::Unhealthy)), agent::Status::Crashed);
    assert_eq!(convert_checked_status(ContainerState::Created, None), agent::Status::Scheduled);
    assert_eq!(convert_checked_status(ContainerState::Paused, Some(HealthState::NoCheck)), agent::Status::Scheduled);
}

#[test]
fn cpu_usage_calculation() {
    let cpu = CpuStats { total_usage: 400, system_cpu_usage: Some(300) };
    let pre = CpuStats { total_usage: 100, system_cpu_usage: Some(200) };
    // 300 / 100 of the system time on 4 cores: 300 * 4 * 1000 / 100
    assert_eq!(ContainerListener::calculate_cpu_usage(cpu, pre, 4), 12000);
    let still = CpuStats { total_usage: 400, system_cpu_usage: None };
    assert_eq!(ContainerListener::calculate_cpu_usage(still, CpuStats { total_usage: 400, system_cpu_usage: None }, 4), 0);
    // The system time going backwards counts by its distance.
    let back = CpuStats { total_usage: 400, system_cpu_usage: Some(100) };
    assert_eq!(ContainerListener::calculate_cpu_usage(back, pre, 2), 6000);
    // Half of the system time on 2 cores is one cpu.
    let half = CpuStats { total_usage: 1, system_cpu_usage: Some(2) };
    let zero = CpuStats { total_usage: 0, system_cpu_usage: Some(0) };
    assert_eq!(ContainerListener::calculate_cpu_usage(half, zero, 2), 1000);
    assert!(ContainerListener::cpu_usage_fits(half, zero, 2));
    assert!(!ContainerListener::cpu_usage_fits(zero, half, 2));
    assert!(!ContainerListener::cpu_usage_fits(half, zero, u64::MAX));
    let big = CpuStats { total_usage: u64::MAX, system_cpu_usage: Some(1) };
    assert!(!ContainerListener::cpu_usage_fits(big, zero, 2));
}

#[test]
fn instance_limit_and_status() {
    let mut inst = agent::Instance::default();
    assert_eq!(ContainerListener::instance_limit(&inst), Err("No ressource in Instance struct".to_string()));
    inst.resource = Some(agent::Resource { limit: None, usage: None });
    assert_eq!(ContainerListener::instance_limit(&inst), Err("Could not get limit in Instance struct".to_string()));
    let lim = agent::ResourceSummary { cpu: 1, memory: 2, disk: 3 };
    inst.resource = Some(agent::Resource { limit: Some(lim), usage: None });
    assert_eq!(ContainerListener::instance_limit(&inst), Ok(lim));
    let s = ContainerListener::instance_status("w".to_string(), agent::Status::Running, lim, 5, None, Some(9));
    assert_eq!(s.status, agent::Status::Running.to_i32());
    assert_eq!(s.description, "heres a description");
    let usage = s.resource.unwrap().usage.unwrap();
    assert_eq!((usage.cpu, usage.memory, usage.disk), (5, 0, 9));
    assert!(ContainerListener::is_final_status(agent::Status::Crashed.to_i32()));
    assert!(ContainerListener::is_final_status(agent::Status::Terminated.to_i32()));
    assert!(!ContainerListener::is_final_status(agent::Status::Running.to_i32()));
    assert_eq!(WorkloadListenerError::new("oops").details, "oops");
}

#[test]
fn node_resource_figures() {
    assert_eq!(system::total_cpu(4), 4000);
    assert_eq!(system::used_cpu(4000, 25), 1000);
    assert_eq!(system::used_cpu(3, 50), 1);
    assert_eq!(system::total_memory(1500, 2600), 4);
    assert_eq!(system::used_memory(2600), 2);
    let totals = vec![500_000_000_000u64, 2_000_000_000_000];
    let available = vec![100_000_000_000u64, 1_500_000_000_000];
    assert_eq!(system::total_disk(&totals), 2000);
    assert_eq!(system::used_disk(&totals, &available), 500);
    assert_eq!(system::total_disk(&Vec::new()), 0);
}

#[test]
fn workload_manager_signals() {
    let runner = WorkloadRunner::new("node".to_string(), "br0".to_string());
    assert_eq!(runner.network_settings.bridge_name, "br0");
    let mut wm: WorkloadManager<u32> = WorkloadManager::new("node".to_string());
    assert_eq!(wm.node_id(), "node");
    let c = Container { id: "c1".to_string() };
    assert_eq!(c.id(), "c1");
    let starting = wm.register_workload("w1".to_string(), c, 7);
    assert_eq!(starting.status, agent::Status::Starting.to_i32());
    assert_eq!(starting.id, "w1");
    assert_eq!(wm.stream("w1"), Some(&7));
    assert_eq!(wm.stream("w2"), None);

    let no_instance = agent::SignalInstruction { signal: 0, instance: None };
    let e = wm.signal(no_instance).unwrap_err();
    assert_eq!(e.code, RpcCode::InvalidArgument);
    assert_eq!(e.message, "Please provide an 'Instance'");

    let mut target = agent::Instance::default();
    target.id = "missing".to_string();
    let e = wm.signal(agent::SignalInstruction { signal: 0, instance: Some(target.clone()) }).unwrap_err();
    assert_eq!(e.code, RpcCode::NotFound);
    assert_eq!(e.message, "This workload does not exist");

    target.id = "w1".to_string();
    let plan = wm.signal(agent::SignalInstruction { signal: 7, instance: Some(target.clone()) }).unwrap();
    assert_eq!(plan.stopping.status, agent::Status::Stopping.to_i32());
    assert_eq!(plan.delivery.as_ref().unwrap_err().message, "This signal does not exist");
    let refused = wm.conclude_signal(plan).unwrap_err();
    assert_eq!(refused.code, RpcCode::NotFound);
    assert_eq!(wm.stream("w1"), Some(&7));

    let plan = wm.signal(agent::SignalInstruction { signal: 1, instance: Some(target.clone()) }).unwrap();
    assert_eq!(plan.container_id, "c1");
    assert_eq!(plan.workload_id, "w1");
    assert_eq!(plan.stopping.id, "w1");
    assert_eq!(plan.stopping.status, agent::Status::Stopping.to_i32());
    let delivery = plan.delivery.as_ref().unwrap();
    assert_eq!(delivery.signal, agent::Signal::Kill);
    assert_eq!(delivery.destroying.status, agent::Status::Destroying.to_i32());
    assert_eq!(delivery.terminated.status, agent::Status::Terminated.to_i32());
    assert_eq!(delivery.terminated.id, "w1");
    assert!(wm.conclude_signal(plan).is_ok());
    assert_eq!(wm.stream("w1"), None);
    assert!(wm.signal(agent::SignalInstruction { signal: 0, instance: Some(target.clone()) }).is_err());

    let starting = wm.register_workload("w1".to_string(), Container { id: "c2".to_string() }, 8);
    assert_eq!(starting.id, "w1");
    let plan = wm.signal(agent::SignalInstruction { signal: 0, instance: Some(target.clone()) }).unwrap();
    assert_eq!(plan.delivery.as_ref().unwrap().signal, agent::Signal::Stop);
    assert_eq!(plan.container_id, "c2");
    wm.remove_workload("w1");
    assert!(wm.signal(agent::SignalInstruction { signal: 0, instance: Some(target) }).is_err());
    let err = WorkloadManagerError::new("failed", "cause");
    assert_eq!((err.details.as_str(), err.cause.as_str()), ("failed", "cause"));
    assert_eq!(err.to_text(), "failed, cause");
    let listener_err = WorkloadListenerError::new("no docker");
    assert_eq!(listener_err.description(), "no docker");
    assert_eq!(listener_err.to_text(), "no docker");
}

fn report(id: &str, status: agent::Status, description: &str) -> agent::InstanceStatus {
    agent::InstanceStatus {
        id: id.to_string(),
        status: status.to_i32(),
        description: description.to_string(),
        resource: None,
    }
}

#[test]
fn listener_steps() {
    let running = report("w1", agent::Status::Running, "d");
    let (cached, action) = ContainerListener::listener_step(agent::InstanceStatus::default(), Ok(running.clone()));
    assert_eq!(cached, running);
    assert_eq!(action, ListenerAction::Send { stop: false });
    let (cached, action) = ContainerListener::listener_step(cached, Ok(running.clone()));
    assert_eq!(cached, running);
    assert_eq!(action, ListenerAction::Skip);
    let other = report("w1", agent::Status::Running, "e");
    let (cached, action) = ContainerListener::listener_step(cached, Ok(other.clone()));
    assert_eq!(cached, other);
    assert_eq!(action, ListenerAction::Send { stop: false });
    let (cached, action) = ContainerListener::listener_step(cached, Err("down".to_string()));
    assert_eq!(cached, other);
    assert_eq!(action, ListenerAction::Fail("down".to_string()));
    let crashed = report("w1", agent::Status::Crashed, "e");
    let (_, action) = ContainerListener::listener_step(cached.clone(), Ok(crashed));
    assert_eq!(action, ListenerAction::Send { stop: true });
    let terminated = report("w1", agent::Status::Terminated, "e");
    let (_, action) = ContainerListener::listener_step(cached, Ok(terminated));
    assert_eq!(action, ListenerAction::Send { stop: true });
}

#[test]
fn node_stream_steps() {
    let status = rik::proto::scheduler::NodeStatus {
        id: "n1".to_string(),
        status: Status::Running.to_i32(),
        status_description: String::new(),
        resource: None,
    };
    let (id, action) = node_stream_step::<String>(None, NodeStreamEvent::Message(status.clone()));
    assert_eq!(id, Some("n1".to_string()));
    assert!(matches!(action, NodeStreamAction::Forward(s) if s.id == "n1"));
    let mut other = status.clone();
    other.id = "n2".to_string();
    let (id, _) = node_stream_step::<String>(id, NodeStreamEvent::Message(other));
    assert_eq!(id, Some("n1".to_string()));
    let (id, action) = node_stream_step::<String>(id, NodeStreamEvent::Reply(Some(Ok(()))));
    assert!(matches!(action, NodeStreamAction::Continue));
    let (_, action) = node_stream_step::<String>(id.clone(), NodeStreamEvent::Reply(None));
    assert!(matches!(action, NodeStreamAction::Continue));
    let (_, action) = node_stream_step::<String>(id.clone(), NodeStreamEvent::Reply(Some(Err("no".to_string()))));
    assert!(matches!(action, NodeStreamAction::Finish(Err(e)) if e == "no"));
    let (_, action) = node_stream_step::<String>(id.clone(), NodeStreamEvent::Ended);
    assert!(matches!(action, NodeStreamAction::Finish(Ok(()))));
    let (_, action) = node_stream_step::<String>(id, NodeStreamEvent::Failed("down".to_string()));
    assert!(matches!(action, NodeStreamAction::Crash(n, e) if n == "n1" && e == "down"));
    let (id, action) = node_stream_step::<String>(None, NodeStreamEvent::Failed("down".to_string()));
    assert_eq!(id, None);
    assert!(matches!(action, NodeStreamAction::Finish(Err(e)) if e == "down"));
}

#[test]
fn container_settings_of_instance() {
    let mut inst = agent::Instance::default();
    inst.name = "web".to_string();
    inst.uri = "debian:latest".to_string();
    inst.ip = "10.0.0.2".to_string();
    inst.ports = vec![
        agent::Port { source: 8080, destination: 80 },
        agent::Port { source: 8443, destination: 443 },
        agent::Port { source: 9090, destination: 80 },
    ];
    inst.resource = Some(agent::Resource {
        limit: Some(agent::ResourceSummary { cpu: 500, memory: 1024, disk: 1 }),
        usage: None,
    });
    assert!(container_limits_fit(&inst));
    let settings = container_settings(&inst);
    assert_eq!(settings.image, "debian:latest");
    assert_eq!(settings.name, "web");
    assert_eq!(settings.ip, "10.0.0.2");
    assert_eq!(settings.port_bindings, vec![(80, 9090), (443, 8443)]);
    assert_eq!(settings.nano_cpus, Some(500));
    assert_eq!(settings.memory, Some(1024));

    inst.resource = None;
    let settings = container_settings(&inst);
    assert_eq!(settings.nano_cpus, None);
    assert_eq!(settings.memory, None);

    inst.resource = Some(agent::Resource {
        limit: Some(agent::ResourceSummary { cpu: u64::MAX, memory: 1, disk: 1 }),
        usage: None,
    });
    assert!(!container_limits_fit(&inst));
}
