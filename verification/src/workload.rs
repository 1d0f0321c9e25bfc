//! The workloads a node agent runs, and the decisions of its workload manager.
use crate::proto::agent;
use crate::storage::Storage;
use vstd::prelude::*;

verus! {

/// Network settings of the workloads of a node: the node and the bridge they attach to.
#[derive(Debug, Clone, PartialEq)]
pub struct NetworkSettings {
    pub node_id: String,
    pub bridge_name: String,
}

/// Runs workloads on a node with the node's network settings.
#[derive(Debug)]
pub struct WorkloadRunner {
    pub network_settings: NetworkSettings,
}

impl WorkloadRunner {
    /// A runner for the node `node_id`, whose workloads attach to the bridge `bridge_name`.
    pub fn new(node_id: String, bridge_name: String) -> (r: WorkloadRunner)
        ensures
            r.network_settings.node_id == node_id,
            r.network_settings.bridge_name == bridge_name,
    {
        WorkloadRunner { network_settings: NetworkSettings { node_id, bridge_name } }
    }
}

/// Something a node agent runs and can identify.
pub trait Workload {
    /// The identifier of the workload in its engine.
    fn id(&self) -> String;
}

/// A container run by the container engine.
#[derive(Debug, Clone, PartialEq)]
pub struct Container {
    pub id: String,
}

impl Workload for Container {
    /// The container's identifier.
    fn id(&self) -> (r: String)
        ensures
            r == self.id,
    {
        self.id.clone()
    }
}

/// The source of the last port in `ports` whose destination is `destination`, if any.
pub open spec fn last_source(ports: Seq<agent::Port>, destination: u32) -> Option<u32>
    decreases ports.len(),
{
    if ports.len() == 0 {
        None
    } else if ports.last().destination == destination {
        Some(ports.last().source)
    } else {
        last_source(ports.drop_last(), destination)
    }
}

/// `bindings` binds each destination of `ports` once, to the source of the last port
/// with that destination, and binds nothing else.
pub open spec fn binds_ports(bindings: Seq<(u32, u32)>, ports: Seq<agent::Port>) -> bool {
    &&& forall|a: int, b: int|
        0 <= a < bindings.len() && 0 <= b < bindings.len() && a != b ==> bindings[a].0 != bindings[b].0
    &&& forall|a: int|
        0 <= a < bindings.len() ==> last_source(ports, #[trigger] bindings[a].0) == Some(bindings[a].1)
    &&& forall|j: int|
        0 <= j < ports.len() ==> exists|a: int| 0 <= a < bindings.len() && #[trigger] bindings[a].0 == #[trigger] ports[j].destination
}

/// The limit of a workload instance's resource, when it has both.
pub open spec fn instance_limit_of(instance: agent::Instance) -> Option<agent::ResourceSummary> {
    match instance.resource {
        Some(r) => r.limit,
        None => None,
    }
}

/// What the container engine is asked to create for a workload instance: the image, the
/// container's name and address, the port bindings (destination, source), and the cpu
/// (nano-cpus) and memory limits.
#[derive(Debug, Clone, PartialEq)]
pub struct ContainerSettings {
    pub image: String,
    pub name: String,
    pub ip: String,
    pub port_bindings: Vec<(u32, u32)>,
    pub nano_cpus: Option<i64>,
    pub memory: Option<i64>,
}

/// Whether the cpu and memory limits of `instance` fit in the signed 64-bit amounts the
/// container engine takes.
pub fn container_limits_fit(instance: &agent::Instance) -> (r: bool)
    ensures
        r == (instance_limit_of(*instance) matches Some(l) ==> l.cpu <= i64::MAX && l.memory
            <= i64::MAX),
{
    match instance.resource {
        Some(res) => match res.limit {
            Some(l) => l.cpu <= i64::MAX as u64 && l.memory <= i64::MAX as u64,
            None => true,
        },
        None => true,
    }
}

/// The settings of the container that runs `instance`: its image is the instance's uri,
/// its name and address the instance's, each destination port is bound to the source of
/// the last port with that destination, and the cpu and memory limits are the instance's
/// limit when it has one.
pub fn container_settings(instance: &agent::Instance) -> (r: ContainerSettings)
    requires
        instance_limit_of(*instance) matches Some(l) ==> l.cpu <= i64::MAX && l.memory <= i64::MAX,
    ensures
        r.image == instance.uri,
        r.name == instance.name,
        r.ip == instance.ip,
        binds_ports(r.port_bindings@, instance.ports@),
        r.nano_cpus == (match instance_limit_of(*instance) {
            Some(l) => Some(l.cpu as i64),
            None => None::<i64>,
        }),
        r.memory == (match instance_limit_of(*instance) {
            Some(l) => Some(l.memory as i64),
            None => None::<i64>,
        }),
{
    let (nano_cpus, memory) = match instance.resource {
        Some(res) => match res.limit {
            Some(l) => (Some(l.cpu as i64), Some(l.memory as i64)),
            None => (None, None),
        },
        None => (None, None),
    };
    ContainerSettings {
        image: instance.uri.clone(),
        name: instance.name.clone(),
        ip: instance.ip.clone(),
        port_bindings: port_bindings(&instance.ports),
        nano_cpus,
        memory,
    }
}

/// Binds each destination of `ports` to the source of the last port with it.
fn port_bindings(ports: &Vec<agent::Port>) -> (r: Vec<(u32, u32)>)
    ensures
        binds_ports(r@, ports@),
{
    let mut bindings: Vec<(u32, u32)> = Vec::new();
    let n = ports.len();
    let mut i: usize = 0;
    while i < n
        invariant
            n == ports@.len(),
            0 <= i <= n,
            binds_ports(bindings@, ports@.take(i as int)),
        decreases n - i,
    {
        let port = ports[i];
        let ghost prefix = ports@.take(i as int);
        let ghost next = ports@.take(i + 1);
        proof {
            assert(next.drop_last() =~= prefix);
            assert(next.last() == port);
        }
        proof {
            assert forall|d: u32| #[trigger] last_source(next, d) == (if d == port.destination {
                Some(port.source)
            } else {
                last_source(prefix, d)
            }) by {}
        }
        let mut found = false;
        let mut a: usize = 0;
        let m = bindings.len();
        while a < m && !found
            invariant
                m == bindings@.len(),
                0 <= a <= m,
                found ==> a < m && bindings@[a as int].0 == port.destination,
                forall|b: int| 0 <= b < a ==> bindings@[b].0 != port.destination,
            decreases m - a + (if found { 0int } else { 1int }),
        {
            if bindings[a].0 == port.destination {
                found = true;
            } else {
                a += 1;
            }
        }
        let ghost old_bindings = bindings@;
        if found {
            bindings.set(a, (port.destination, port.source));
            proof {
                assert forall|x: int, y: int|
                    0 <= x < bindings@.len() && 0 <= y < bindings@.len() && x != y implies bindings@[x].0
                    != bindings@[y].0 by {
                    assert(bindings@[x].0 == old_bindings[x].0);
                    assert(bindings@[y].0 == old_bindings[y].0);
                }
                assert forall|c: int| 0 <= c < bindings@.len() implies last_source(
                    next,
                    #[trigger] bindings@[c].0,
                ) == Some(bindings@[c].1) by {
                    if c != a {
                        assert(old_bindings[c].0 != old_bindings[a as int].0);
                        assert(last_source(prefix, old_bindings[c].0) == Some(old_bindings[c].1));
                    }
                }
                assert forall|j: int| 0 <= j < next.len() implies exists|c: int|
                    0 <= c < bindings@.len() && #[trigger] bindings@[c].0 == #[trigger] next[j].destination by {
                    if j < i {
                        assert(next[j] == prefix[j]);
                        let c = choose|c: int| 0 <= c < old_bindings.len() && #[trigger] old_bindings[c].0 == prefix[j].destination;
                        assert(bindings@[c].0 == next[j].destination);
                    } else {
                        assert(bindings@[a as int].0 == next[j].destination);
                    }
                }
            }
        } else {
            bindings.push((port.destination, port.source));
            proof {
                assert forall|x: int, y: int|
                    0 <= x < bindings@.len() && 0 <= y < bindings@.len() && x != y implies bindings@[x].0
                    != bindings@[y].0 by {
                    if x < m && y < m {
                        assert(old_bindings[x].0 != old_bindings[y].0);
                    }
                }
                assert forall|c: int| 0 <= c < bindings@.len() implies last_source(
                    next,
                    #[trigger] bindings@[c].0,
                ) == Some(bindings@[c].1) by {
                    if c < m {
                        assert(bindings@[c] == old_bindings[c]);
                        assert(last_source(prefix, old_bindings[c].0) == Some(old_bindings[c].1));
                    }
                }
                assert forall|j: int| 0 <= j < next.len() implies exists|c: int|
                    0 <= c < bindings@.len() && #[trigger] bindings@[c].0 == #[trigger] next[j].destination by {
                    if j < i {
                        assert(next[j] == prefix[j]);
                        let c = choose|c: int| 0 <= c < old_bindings.len() && #[trigger] old_bindings[c].0 == prefix[j].destination;
                        assert(bindings@[c].0 == next[j].destination);
                    } else {
                        assert(bindings@[m as int].0 == next[j].destination);
                    }
                }
            }
        }
        i += 1;
    }
    proof {
        assert(ports@.take(n as int) =~= ports@);
    }
    bindings
}

/// An error of the workload manager: what failed, and why.
#[derive(Debug, Clone, PartialEq)]
pub struct WorkloadManagerError {
    pub details: String,
    pub cause: String,
}

impl WorkloadManagerError {
    /// An error with the given details and cause.
    pub fn new(msg: &str, cause: &str) -> (r: WorkloadManagerError)
        ensures
            r.details@ == msg@,
            r.cause@ == cause@,
    {
        WorkloadManagerError { details: msg.to_string(), cause: cause.to_string() }
    }

    /// The text of the error: its details, a comma and a space, then its cause.
    pub fn to_text(&self) -> (r: String)
        ensures
            r@ == self.details@ + ", "@ + self.cause@,
    {
        let mut r = self.details.clone();
        r.append(", ");
        r.append(self.cause.as_str());
        r
    }
}

/// The kinds of errors a node agent answers to the scheduler.
#[derive(Debug, Clone, Copy, PartialEq, Eq, Structural)]
pub enum RpcCode {
    InvalidArgument,
    NotFound,
    Internal,
}

/// An error answered to the scheduler: its kind and its message.
#[derive(Debug, Clone, PartialEq)]
pub struct RpcError {
    pub code: RpcCode,
    pub message: String,
}

/// A status report about the workload `id` with the status `status` and nothing else.
pub open spec fn bare_status(r: agent::InstanceStatus, id: String, status: agent::Status) -> bool {
    &&& r.id == id
    &&& r.status == status.value()
    &&& r.description@ == Seq::<char>::empty()
    &&& r.resource is None
}

/// How a valid signal is delivered: the signal, the report sent while the workload is
/// being stopped or killed, and the report sent once it is.
#[derive(Debug)]
pub struct Delivery {
    pub signal: agent::Signal,
    pub destroying: agent::InstanceStatus,
    pub terminated: agent::InstanceStatus,
}

/// What to do to deliver a signal: the workload and its container, the report sent first
/// (the workload is stopping), then either the delivery or the error answered once that
/// report was sent.
#[derive(Debug)]
pub struct SignalPlan {
    pub workload_id: String,
    pub container_id: String,
    pub stopping: agent::InstanceStatus,
    pub delivery: Result<Delivery, RpcError>,
}

/// The workloads run by a node agent and the streams that report their status, both by
/// workload identifier. `S` is the kind of stream.
#[derive(Debug)]
pub struct WorkloadManager<S> {
    workloads: Storage<Container>,
    streams: Storage<S>,
    node_id: String,
}

impl<S> WorkloadManager<S> {
    /// The containers of the workloads, by workload identifier.
    pub closed spec fn workload_map(&self) -> Map<Seq<char>, Container> {
        self.workloads.as_map()
    }

    /// The status streams of the workloads, by workload identifier.
    pub closed spec fn stream_map(&self) -> Map<Seq<char>, S> {
        self.streams.as_map()
    }

    /// The node the workloads run on.
    pub closed spec fn node_id_of(&self) -> String {
        self.node_id
    }

    /// The node the workloads run on.
    pub fn node_id(&self) -> (r: &String)
        ensures
            *r == self.node_id_of(),
    {
        &self.node_id
    }

    /// Both stores are well formed and every workload has a status stream, and only they.
    pub closed spec fn wf(&self) -> bool {
        &&& self.workloads.wf()
        &&& self.streams.wf()
        &&& self.workloads.as_map().dom() == self.streams.as_map().dom()
    }

    /// An empty manager for the node `node_id`.
    pub fn new(node_id: String) -> (r: WorkloadManager<S>)
        ensures
            r.wf(),
            r.node_id_of() == node_id,
            r.workload_map() == Map::<Seq<char>, Container>::empty(),
            r.stream_map() == Map::<Seq<char>, S>::empty(),
    {
        WorkloadManager { workloads: Storage::new(), streams: Storage::new(), node_id }
    }

    /// A status report about the workload `id` with the status `status` and nothing else.
    pub fn status_report(id: String, status: agent::Status) -> (r: agent::InstanceStatus)
        ensures
            bare_status(r, id, status),
    {
        agent::InstanceStatus {
            id,
            status: status.to_i32(),
            description: String::new(),
            resource: None,
        }
    }

    /// Records the container created for the workload `workload_id` and the stream of its
    /// status reports, and returns the report that it is starting.
    pub fn register_workload(&mut self, workload_id: String, container: Container, stream: S) -> (r:
        agent::InstanceStatus)
        requires
            old(self).wf(),
        ensures
            final(self).wf(),
            final(self).workload_map() == old(self).workload_map().insert(workload_id@, container),
            final(self).stream_map() == old(self).stream_map().insert(workload_id@, stream),
            final(self).node_id_of() == old(self).node_id_of(),
            bare_status(r, workload_id, agent::Status::Starting),
    {
        self.workloads.update(workload_id.as_str(), container);
        self.streams.update(workload_id.as_str(), stream);
        proof {
            assert(self.workloads.as_map().dom() =~= self.streams.as_map().dom());
        }
        Self::status_report(workload_id, agent::Status::Starting)
    }

    /// The status stream of the workload `workload_id`, if it runs.
    pub fn stream(&self, workload_id: &str) -> (r: Option<&S>)
        requires
            self.wf(),
        ensures
            r == (if self.stream_map().contains_key(workload_id@) {
                Some(&self.stream_map()[workload_id@])
            } else {
                None::<&S>
            }),
    {
        proof {
            self.streams.lemma_lookup_as_map(workload_id@);
        }
        self.streams.get(workload_id)
    }

    /// Decides how to deliver a signal. Answers `InvalidArgument` when the instruction names
    /// no instance and `NotFound` when no workload runs under the instance's id. Otherwise
    /// the plan names the workload and its container and first reports it stopping; for a
    /// stop or kill signal, it then delivers that signal while reporting the workload
    /// destroying, and reports it terminated once delivered; for any other signal value,
    /// it answers `NotFound` after the first report.
    pub fn signal(&self, signal_instruction: agent::SignalInstruction) -> (r: Result<SignalPlan, RpcError>)
        requires
            self.wf(),
        ensures
            match signal_instruction.instance {
                None => r matches Err(e) && e.code == RpcCode::InvalidArgument
                    && e.message@ == "Please provide an 'Instance'"@,
                Some(inst) => if !self.workload_map().contains_key(inst.id@) {
                    r matches Err(e) && e.code == RpcCode::NotFound
                        && e.message@ == "This workload does not exist"@
                } else {
                    &&& self.stream_map().contains_key(inst.id@)
                    &&& r matches Ok(plan)
                    &&& plan.workload_id == inst.id
                    &&& plan.container_id == self.workload_map()[inst.id@].id
                    &&& bare_status(plan.stopping, inst.id, agent::Status::Stopping)
                    &&& if signal_instruction.signal == agent::Signal::Stop.value()
                        || signal_instruction.signal == agent::Signal::Kill.value() {
                        plan.delivery matches Ok(d) && d.signal.value() == signal_instruction.signal
                            && bare_status(d.destroying, inst.id, agent::Status::Destroying)
                            && bare_status(d.terminated, inst.id, agent::Status::Terminated)
                    } else {
                        plan.delivery matches Err(e) && e.code == RpcCode::NotFound
                            && e.message@ == "This signal does not exist"@
                    }
                },
            },
    {
        let workload_id = match signal_instruction.instance {
            Some(inst) => inst.id,
            None => {
                return Err(
                    RpcError {
                        code: RpcCode::InvalidArgument,
                        message: "Please provide an 'Instance'".to_string(),
                    },
                )
            },
        };
        proof {
            self.workloads.lemma_lookup_as_map(workload_id@);
        }
        let container = match self.workloads.get(workload_id.as_str()) {
            Some(c) => c,
            None => {
                return Err(
                    RpcError {
                        code: RpcCode::NotFound,
                        message: "This workload does not exist".to_string(),
                    },
                )
            },
        };
        let stopping = Self::status_report(workload_id.clone(), agent::Status::Stopping);
        let delivery = match agent::Signal::from_i32(signal_instruction.signal) {
            Some(signal) => {
                proof {
                    agent::Signal::lemma_value_round_trip(signal, signal_instruction.signal);
                }
                Ok(
                    Delivery {
                        signal,
                        destroying: Self::status_report(workload_id.clone(), agent::Status::Destroying),
                        terminated: Self::status_report(workload_id.clone(), agent::Status::Terminated),
                    },
                )
            },
            None => Err(
                RpcError { code: RpcCode::NotFound, message: "This signal does not exist".to_string() },
            ),
        };
        Ok(SignalPlan { workload_id, container_id: container.id.clone(), stopping, delivery })
    }

    /// Ends the delivery of a signal once its reports were sent: after a delivered signal
    /// the workload and its stream are forgotten and the answer is `Ok`; after a refused
    /// one nothing changes and the plan's error is the answer.
    pub fn conclude_signal(&mut self, plan: SignalPlan) -> (r: Result<(), RpcError>)
        requires
            old(self).wf(),
        ensures
            final(self).wf(),
            final(self).node_id_of() == old(self).node_id_of(),
            match plan.delivery {
                Ok(_) => {
                    &&& r is Ok
                    &&& final(self).workload_map() == old(self).workload_map().remove(plan.workload_id@)
                    &&& final(self).stream_map() == old(self).stream_map().remove(plan.workload_id@)
                },
                Err(e) => {
                    &&& r == Err::<(), RpcError>(e)
                    &&& final(self).workload_map() == old(self).workload_map()
                    &&& final(self).stream_map() == old(self).stream_map()
                },
            },
    {
        match plan.delivery {
            Ok(_) => {
                self.remove_workload(plan.workload_id.as_str());
                Ok(())
            },
            Err(e) => Err(e),
        }
    }

    /// Forgets the workload `workload_id` and its stream.
    pub fn remove_workload(&mut self, workload_id: &str)
        requires
            old(self).wf(),
        ensures
            final(self).wf(),
            final(self).workload_map() == old(self).workload_map().remove(workload_id@),
            final(self).stream_map() == old(self).stream_map().remove(workload_id@),
            final(self).node_id_of() == old(self).node_id_of(),
    {
        self.workloads.delete(workload_id);
        self.streams.delete(workload_id);
        proof {
            assert(self.workloads.as_map().dom() =~= self.streams.as_map().dom());
        }
    }
}

} // verus!
