use vstd::prelude::*;

verus! {

/// Lifecycle status of a node or of an instance, as seen by the scheduler.
#[derive(Debug, Clone, Copy, PartialEq, Eq, Structural)]
pub enum Status {
    Unknown,
    Scheduling,
    Scheduled,
    Starting,
    Running,
    Stopping,
    Stopped,
    Destroying,
    Terminated,
    Failed,
}

impl Status {
    /// Wire value of a status.
    pub open spec fn value(self) -> i32 {
        match self {
            Status::Unknown => 0,
            Status::Scheduling => 1,
            Status::Scheduled => 2,
            Status::Starting => 3,
            Status::Running => 4,
            Status::Stopping => 5,
            Status::Stopped => 6,
            Status::Destroying => 7,
            Status::Terminated => 8,
            Status::Failed => 9,
        }
    }

    /// Status carried by a wire value, if the value names one.
    pub open spec fn from_value(v: i32) -> Option<Status> {
        if v == 0 {
            Some(Status::Unknown)
        } else if v == 1 {
            Some(Status::Scheduling)
        } else if v == 2 {
            Some(Status::Scheduled)
        } else if v == 3 {
            Some(Status::Starting)
        } else if v == 4 {
            Some(Status::Running)
        } else if v == 5 {
            Some(Status::Stopping)
        } else if v == 6 {
            Some(Status::Stopped)
        } else if v == 7 {
            Some(Status::Destroying)
        } else if v == 8 {
            Some(Status::Terminated)
        } else if v == 9 {
            Some(Status::Failed)
        } else {
            None
        }
    }

    /// Status read from a wire value: unknown values read as `Unknown`.
    pub open spec fn from_value_or_default(v: i32) -> Status {
        match Status::from_value(v) {
            Some(s) => s,
            None => Status::Unknown,
        }
    }

    /// The wire value of this status.
    pub fn to_i32(self) -> (r: i32)
        ensures
            r == self.value(),
    {
        match self {
            Status::Unknown => 0,
            Status::Scheduling => 1,
            Status::Scheduled => 2,
            Status::Starting => 3,
            Status::Running => 4,
            Status::Stopping => 5,
            Status::Stopped => 6,
            Status::Destroying => 7,
            Status::Terminated => 8,
            Status::Failed => 9,
        }
    }

    /// The status named by a wire value, or `None` for a value that names none.
    pub fn from_i32(v: i32) -> (r: Option<Status>)
        ensures
            r == Status::from_value(v),
    {
        if v == 0 {
            Some(Status::Unknown)
        } else if v == 1 {
            Some(Status::Scheduling)
        } else if v == 2 {
            Some(Status::Scheduled)
        } else if v == 3 {
            Some(Status::Starting)
        } else if v == 4 {
            Some(Status::Running)
        } else if v == 5 {
            Some(Status::Stopping)
        } else if v == 6 {
            Some(Status::Stopped)
        } else if v == 7 {
            Some(Status::Destroying)
        } else if v == 8 {
            Some(Status::Terminated)
        } else if v == 9 {
            Some(Status::Failed)
        } else {
            None
        }
    }

    /// Reading back the wire value of a status gives that status, and a wire value that
    /// names a status is that status's wire value.
    pub proof fn lemma_value_round_trip(s: Status, v: i32)
        ensures
            Status::from_value(s.value()) == Some(s),
            Status::from_value(v) matches Some(t) ==> t.value() == v,
    {
    }
}

/// Amounts of cpu (milli-cpu), memory and disk.
#[derive(Debug, Clone, Copy, PartialEq, Eq, Structural, Default)]
pub struct ResourceSummary {
    pub cpu: u64,
    pub memory: u64,
    pub disk: u64,
}

/// The limit and the current usage of resources of a node or an instance.
#[derive(Debug, Clone, Copy, PartialEq, Eq, Structural, Default)]
pub struct Resource {
    pub limit: Option<ResourceSummary>,
    pub usage: Option<ResourceSummary>,
}

/// A port exposed by an instance: `source` on the host forwards to `destination`.
#[derive(Debug, Clone, Copy, PartialEq, Eq, Structural, Default)]
pub struct Port {
    pub source: u32,
    pub destination: u32,
}

/// A workload instance as described by the controller.
#[derive(Debug, Clone, PartialEq, Default)]
pub struct Instance {
    pub id: String,
    pub name: String,
    pub kind: i32,
    pub status: i32,
    pub uri: String,
    pub environnement: Vec<String>,
    pub resource: Option<Resource>,
    pub ports: Vec<Port>,
    pub ip: String,
}

impl Instance {
    /// The status of the instance; a wire value that names no status reads as `Unknown`.
    pub fn status(&self) -> (r: Status)
        ensures
            r == Status::from_value_or_default(self.status),
    {
        match Status::from_i32(self.status) {
            Some(s) => s,
            None => Status::Unknown,
        }
    }
}

/// A status report about an instance, sent to the controller.
#[derive(Debug, Clone, PartialEq, Default)]
pub struct InstanceStatus {
    pub id: String,
    pub status: i32,
    pub status_description: String,
    pub resource: Option<Resource>,
}

/// A status report sent by a node agent about its node.
#[derive(Debug, Clone, PartialEq, Default)]
pub struct NodeStatus {
    pub id: String,
    pub status: i32,
    pub status_description: String,
    pub resource: Option<Resource>,
}

impl NodeStatus {
    /// The reported status; a wire value that names no status reads as `Unknown`.
    pub fn status(&self) -> (r: Status)
        ensures
            r == Status::from_value_or_default(self.status),
    {
        match Status::from_i32(self.status) {
            Some(s) => s,
            None => Status::Unknown,
        }
    }
}

/// Identifies an instance in the requests of the controller.
#[derive(Debug, Clone, PartialEq, Default)]
pub struct InstanceIdentifier {
    pub id: String,
}

/// Request of a node agent that joins the cluster.
#[derive(Debug, Clone, PartialEq, Default)]
pub struct NodeRegisterRequest {
    pub certificate: String,
}

/// Answer to a node agent that asked to join the cluster.
#[derive(Debug, Clone, PartialEq, Default)]
pub struct NodeRegisterResponse {
    pub code: i32,
    pub description: String,
    pub subnet: String,
}

/// Request of a node agent that leaves the cluster.
#[derive(Debug, Clone, PartialEq, Default)]
pub struct NodeUnregisterRequest {
    pub id: String,
}

/// Answer to a node agent that asked to leave the cluster.
#[derive(Debug, Clone, PartialEq, Default)]
pub struct NodeUnregisterResponse {
    pub code: i32,
    pub description: String,
}

} // verus!
