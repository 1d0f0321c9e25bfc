//! What a node agent reports about a running container.
use crate::proto::agent;
use vstd::prelude::*;

verus! {

/// State of a container, as the container engine reports it.
#[derive(Debug, Clone, Copy, PartialEq, Eq, Structural)]
pub enum ContainerState {
    Empty,
    Created,
    Running,
    Paused,
    Restarting,
    Removing,
    Exited,
    Dead,
}

/// The workload status that stands for a container state: an unknown state counts as
/// running; removing is destroying, exited is terminated, dead is crashed, and any other
/// state is running.
pub open spec fn workload_status_of(state: Option<ContainerState>) -> agent::Status {
    match state {
        Some(ContainerState::Removing) => agent::Status::Destroying,
        Some(ContainerState::Exited) => agent::Status::Terminated,
        Some(ContainerState::Dead) => agent::Status::Crashed,
        _ => agent::Status::Running,
    }
}

/// The workload status that stands for a container state.
pub fn convert_status(state: Option<ContainerState>) -> (r: agent::Status)
    ensures
        r == workload_status_of(state),
{
    let s = match state {
        Some(s) => s,
        None => ContainerState::Running,
    };
    match s {
        ContainerState::Running => agent::Status::Running,
        ContainerState::Removing => agent::Status::Destroying,
        ContainerState::Exited => agent::Status::Terminated,
        ContainerState::Dead => agent::Status::Crashed,
        _ => agent::Status::Running,
    }
}

/// Health of a container that runs a health check, as the container engine reports it.
#[derive(Debug, Clone, Copy, PartialEq, Eq, Structural)]
pub enum HealthState {
    Empty,
    NoCheck,
    Starting,
    Healthy,
    Unhealthy,
}

/// The workload status that stands for a container state when the container's health is
/// taken into account: a container whose health check is still starting is starting;
/// otherwise running is running, removing is destroying, exited is terminated, dead is
/// crashed, and any other state is scheduled.
pub open spec fn checked_status_of(state: ContainerState, health: Option<HealthState>) -> agent::Status {
    if health == Some(HealthState::Starting) {
        agent::Status::Starting
    } else {
        match state {
            ContainerState::Running => agent::Status::Running,
            ContainerState::Removing => agent::Status::Destroying,
            ContainerState::Exited => agent::Status::Terminated,
            ContainerState::Dead => agent::Status::Crashed,
            _ => agent::Status::Scheduled,
        }
    }
}

/// The workload status that stands for a container state and the container's health.
pub fn convert_checked_status(state: ContainerState, health: Option<HealthState>) -> (r: agent::Status)
    ensures
        r == checked_status_of(state, health),
{
    let status = match state {
        ContainerState::Running => agent::Status::Running,
        ContainerState::Removing => agent::Status::Destroying,
        ContainerState::Exited => agent::Status::Terminated,
        ContainerState::Dead => agent::Status::Crashed,
        _ => agent::Status::Scheduled,
    };
    match health {
        Some(HealthState::Starting) => agent::Status::Starting,
        _ => status,
    }
}

/// Cpu counters of a container: the total cpu time it used, and the cpu time of the whole
/// system when it is known.
#[derive(Debug, Clone, Copy, PartialEq, Eq, Structural)]
pub struct CpuStats {
    pub total_usage: u64,
    pub system_cpu_usage: Option<u64>,
}

/// The system cpu time of a sample, 0 when unknown.
pub open spec fn system_usage(s: CpuStats) -> int {
    match s.system_cpu_usage {
        Some(u) => u as int,
        None => 0,
    }
}

/// The distance between the system cpu times of two samples.
pub open spec fn system_delta(cpu: CpuStats, pre_cpu: CpuStats) -> int {
    if system_usage(cpu) >= system_usage(pre_cpu) {
        system_usage(cpu) - system_usage(pre_cpu)
    } else {
        system_usage(pre_cpu) - system_usage(cpu)
    }
}

/// The cpu usage of a container between two samples, in milli-cpu, on a machine with
/// `cores` physical cores: the container's cpu time over the system's, times the cores, in
/// milli-cpu (rounded down); 0 when the system time did not move.
pub open spec fn cpu_usage_in_milli_cpu(cpu: CpuStats, pre_cpu: CpuStats, cores: u64) -> int {
    if system_delta(cpu, pre_cpu) > 0 {
        (cpu.total_usage - pre_cpu.total_usage) * (cores * 1000) / system_delta(cpu, pre_cpu)
    } else {
        0
    }
}

/// Watches containers and reports their status.
#[derive(Clone)]
pub struct ContainerListener {}

impl ContainerListener {
    /// The cpu usage of a container between two samples, in milli-cpu, on a machine with
    /// `cpu_cores_number` physical cores.
    pub fn calculate_cpu_usage(cpu: CpuStats, pre_cpu: CpuStats, cpu_cores_number: u64) -> (r: u64)
        requires
            pre_cpu.total_usage <= cpu.total_usage,
            cpu_cores_number * 1000 <= u64::MAX,
            cpu_usage_in_milli_cpu(cpu, pre_cpu, cpu_cores_number) <= u64::MAX,
        ensures
            r == cpu_usage_in_milli_cpu(cpu, pre_cpu, cpu_cores_number),
    {
        let usage = Self::cpu_usage_wide(cpu, pre_cpu, cpu_cores_number);
        usage as u64
    }

    /// The cpu usage as `calculate_cpu_usage` defines it, computed on 128 bits.
    fn cpu_usage_wide(cpu: CpuStats, pre_cpu: CpuStats, cpu_cores_number: u64) -> (r: u128)
        requires
            pre_cpu.total_usage <= cpu.total_usage,
            cpu_cores_number * 1000 <= u64::MAX,
        ensures
            r == cpu_usage_in_milli_cpu(cpu, pre_cpu, cpu_cores_number),
    {
        let total_milli_cpu = cpu_cores_number * 1000;
        let cpu_delta = cpu.total_usage - pre_cpu.total_usage;
        let system = match cpu.system_cpu_usage {
            Some(u) => u,
            None => 0,
        };
        let pre_system = match pre_cpu.system_cpu_usage {
            Some(u) => u,
            None => 0,
        };
        let cpu_delta_system = if system >= pre_system {
            system - pre_system
        } else {
            pre_system - system
        };
        if cpu_delta_system > 0 {
            assert((cpu_delta as int) * (total_milli_cpu as int) <= u64::MAX * u64::MAX) by (nonlinear_arith)
                requires
                    cpu_delta <= u64::MAX,
                    total_milli_cpu <= u64::MAX,
            ;
            (cpu_delta as u128) * (total_milli_cpu as u128) / (cpu_delta_system as u128)
        } else {
            0
        }
    }

    /// Whether `calculate_cpu_usage` can compute the usage of these samples: the container's
    /// cpu time did not go back, and the milli-cpu of the cores and the usage fit in 64 bits.
    pub fn cpu_usage_fits(cpu: CpuStats, pre_cpu: CpuStats, cpu_cores_number: u64) -> (r: bool)
        ensures
            r == (pre_cpu.total_usage <= cpu.total_usage && cpu_cores_number * 1000 <= u64::MAX
                && cpu_usage_in_milli_cpu(cpu, pre_cpu, cpu_cores_number) <= u64::MAX),
    {
        if pre_cpu.total_usage > cpu.total_usage || cpu_cores_number > u64::MAX / 1000 {
            return false;
        }
        Self::cpu_usage_wide(cpu, pre_cpu, cpu_cores_number) <= u64::MAX as u128
    }

    /// The resource limit of an instance, or the message of the internal error reported
    /// when the instance has no resource or no limit.
    pub fn instance_limit(instance: &agent::Instance) -> (r: Result<agent::ResourceSummary, String>)
        ensures
            match instance.resource {
                None => r matches Err(m) && m@ == "No ressource in Instance struct"@,
                Some(res) => match res.limit {
                    None => r matches Err(m) && m@ == "Could not get limit in Instance struct"@,
                    Some(l) => r == Ok::<agent::ResourceSummary, String>(l),
                },
            },
    {
        match instance.resource {
            Some(res) => match res.limit {
                Some(l) => Ok(l),
                None => Err("Could not get limit in Instance struct".to_string()),
            },
            None => Err("No ressource in Instance struct".to_string()),
        }
    }

    /// The status report about the workload `id`: its status, its limit, and its usage
    /// (cpu in milli-cpu, memory, and disk reads; memory and disk count 0 when unknown).
    pub fn instance_status(
        id: String,
        status: agent::Status,
        limit: agent::ResourceSummary,
        cpu_usage: u64,
        memory_usage: Option<u64>,
        disk_reads: Option<u64>,
    ) -> (r: agent::InstanceStatus)
        ensures
            r.id == id,
            r.status == status.value(),
            r.description@ == "heres a description"@,
            r.resource == Some(
                agent::Resource {
                    limit: Some(limit),
                    usage: Some(
                        agent::ResourceSummary {
                            cpu: cpu_usage,
                            memory: match memory_usage {
                                Some(m) => m,
                                None => 0,
                            },
                            disk: match disk_reads {
                                Some(d) => d,
                                None => 0,
                            },
                        },
                    ),
                },
            ),
    {
        let memory = match memory_usage {
            Some(m) => m,
            None => 0,
        };
        let disk = match disk_reads {
            Some(d) => d,
            None => 0,
        };
        agent::InstanceStatus {
            id,
            status: status.to_i32(),
            description: "heres a description".to_string(),
            resource: Some(
                agent::Resource {
                    limit: Some(limit),
                    usage: Some(agent::ResourceSummary { cpu: cpu_usage, memory, disk }),
                },
            ),
        }
    }

    /// Whether a listener stops after reporting `status`: it stops once the workload crashed
    /// or terminated.
    pub fn is_final_status(status: i32) -> (r: bool)
        ensures
            r == (status == agent::Status::Crashed.value() || status
                == agent::Status::Terminated.value()),
    {
        status == agent::Status::Crashed.to_i32() || status == agent::Status::Terminated.to_i32()
    }
}

/// Two status reports carry the same id, status, description and resource.
pub open spec fn same_report(a: agent::InstanceStatus, b: agent::InstanceStatus) -> bool {
    &&& a.id@ == b.id@
    &&& a.status == b.status
    &&& a.description@ == b.description@
    &&& a.resource == b.resource
}

/// Reports are the same only when they agree on every field: a report whose status or
/// resource (limit or usage) differs from another is a different report. Every report is
/// the same as itself, and sameness goes both ways.
pub proof fn lemma_same_report_fields(a: agent::InstanceStatus, b: agent::InstanceStatus)
    ensures
        same_report(a, b) ==> a.resource == b.resource && a.status == b.status && a.id@ == b.id@
            && a.description@ == b.description@,
        a.resource != b.resource ==> !same_report(a, b),
        same_report(a, a),
        same_report(a, b) == same_report(b, a),
{
}

/// What a container listener does after fetching the status of its container.
#[derive(Debug, Clone, PartialEq)]
pub enum ListenerAction {
    /// The status is the one last sent: nothing is sent, and the listener fetches again.
    Skip,
    /// The status is new: it is sent, and the listener stops after it when `stop` holds.
    Send { stop: bool },
    /// Fetching failed: the error with this message is sent, and the listener stops.
    Fail(String),
}

/// Whether two status reports are the same, field by field.
pub fn same_status(a: &agent::InstanceStatus, b: &agent::InstanceStatus) -> (r: bool)
    ensures
        r == same_report(*a, *b),
        r == (a.id@ == b.id@ && a.status == b.status && a.description@ == b.description@
            && a.resource == b.resource),
{
    if a.id != b.id || a.status != b.status || a.description != b.description {
        return false;
    }
    match (a.resource, b.resource) {
        (None, None) => true,
        (Some(x), Some(y)) => x == y,
        _ => false,
    }
}

impl ContainerListener {
    /// One step of a container listener: given the status last sent and what fetching the
    /// container's status gave, the status to remember and what to do. A status equal to
    /// the last one sent is skipped; a new one is remembered and sent, and the listener
    /// stops after it when the workload crashed or terminated; an error is sent and stops
    /// the listener.
    pub fn listener_step(
        last_sent: agent::InstanceStatus,
        fetched: Result<agent::InstanceStatus, String>,
    ) -> (r: (agent::InstanceStatus, ListenerAction))
        ensures
            match fetched {
                Err(e) => r.0 == last_sent && r.1 == ListenerAction::Fail(e),
                Ok(s) => if same_report(last_sent, s) {
                    r.0 == last_sent && r.1 == ListenerAction::Skip
                } else {
                    r.0 == s && r.1 == ListenerAction::Send {
                        stop: s.status == agent::Status::Crashed.value() || s.status
                            == agent::Status::Terminated.value(),
                    }
                },
            },
            fetched matches Ok(s) ==> ((s.resource != last_sent.resource || s.status != last_sent.status)
                ==> (r.0 == s && r.1 is Send)),
    {
        match fetched {
            Err(e) => (last_sent, ListenerAction::Fail(e)),
            Ok(s) => {
                if same_status(&last_sent, &s) {
                    (last_sent, ListenerAction::Skip)
                } else {
                    let stop = Self::is_final_status(s.status);
                    (s, ListenerAction::Send { stop })
                }
            },
        }
    }
}

/// An error of a workload listener, with its details.
#[derive(Debug, Clone, PartialEq)]
pub struct WorkloadListenerError {
    pub details: String,
}

impl WorkloadListenerError {
    /// An error with the given details.
    pub fn new(msg: &str) -> (r: WorkloadListenerError)
        ensures
            r.details@ == msg@,
    {
        WorkloadListenerError { details: msg.to_string() }
    }

    /// The text of the error: its details.
    pub fn description(&self) -> (r: &str)
        ensures
            r@ == self.details@,
    {
        self.details.as_str()
    }

    /// The text of the error, as an owned string.
    pub fn to_text(&self) -> (r: String)
        ensures
            r@ == self.details@,
    {
        self.details.clone()
    }
}

} // verus!
