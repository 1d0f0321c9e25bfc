use vstd::prelude::*;

verus! {

/// Lifecycle status of a workload, as seen by a node agent.
#[derive(Debug, Clone, Copy, PartialEq, Eq, Structural)]
pub enum Status {
    Unknown,
    Scheduled,
    Starting,
    Running,
    Stopping,
    Destroying,
    Terminated,
    Crashed,
    Failed,
}

impl Status {
    /// Wire value.
    pub open spec fn value(self) -> i32 {
        match self {
            Status::Unknown => 0,
            Status::Scheduled => 1,
            Status::Starting => 2,
            Status::Running => 3,
            Status::Stopping => 4,
            Status::Destroying => 5,
            Status::Terminated => 6,
            Status::Crashed => 7,
            Status::Failed => 8,
        }
    }

    /// Value named by a wire value, if any.
    pub open spec fn from_value(v: i32) -> Option<Status> {
        if v == 0 {
            Some(Status::Unknown)
        } else if v == 1 {
            Some(Status::Scheduled)
        } else if v == 2 {
            Some(Status::Starting)
        } else if v == 3 {
            Some(Status::Running)
        } else if v == 4 {
            Some(Status::Stopping)
        } else if v == 5 {
            Some(Status::Destroying)
        } else if v == 6 {
            Some(Status::Terminated)
        } else if v == 7 {
            Some(Status::Crashed)
        } else if v == 8 {
            Some(Status::Failed)
        } else {
            None
        }
    }

    /// Value read from a wire value: a value that names none reads as `Unknown`.
    pub open spec fn from_value_or_default(v: i32) -> Status {
        match Status::from_value(v) {
            Some(s) => s,
            None => Status::Unknown,
        }
    }

    /// The wire value.
    pub fn to_i32(self) -> (r: i32)
        ensures
            r == self.value(),
    {
        match self {
            Status::Unknown => 0,
            Status::Scheduled => 1,
            Status::Starting => 2,
            Status::Running => 3,
            Status::Stopping => 4,
            Status::Destroying => 5,
            Status::Terminated => 6,
            Status::Crashed => 7,
            Status::Failed => 8,
        }
    }

    /// The value named by a wire value, or `None` for a wire value that names none.
    pub fn from_i32(v: i32) -> (r: Option<Status>)
        ensures
            r == Status::from_value(v),
    {
        if v == 0 {
            Some(Status::Unknown)
        } else if v == 1 {
            Some(Status::Scheduled)
        } else if v == 2 {
            Some(Status::Starting)
        } else if v == 3 {
            Some(Status::Running)
        } else if v == 4 {
            Some(Status::Stopping)
        } else if v == 5 {
            Some(Status::Destroying)
        } else if v == 6 {
            Some(Status::Terminated)
        } else if v == 7 {
            Some(Status::Crashed)
        } else if v == 8 {
            Some(Status::Failed)
        } else {
            None
        }
    }

    /// Reading back a wire value gives the value it was made from, and a wire value that
    /// names a value is that value's wire value.
    pub proof fn lemma_value_round_trip(s: Status, v: i32)
        ensures
            Status::from_value(s.value()) == Some(s),
            Status::from_value(v) matches Some(t) ==> t.value() == v,
    {
    }
}

/// Kind of workload run by a node agent.
#[derive(Debug, Clone, Copy, PartialEq, Eq, Structural)]
pub enum Type {
    Container,
}

impl Type {
    /// Wire value.
    pub open spec fn value(self) -> i32 {
        match self {
            Type::Container => 0,
        }
    }

    /// Value named by a wire value, if any.
    pub open spec fn from_value(v: i32) -> Option<Type> {
        if v == 0 {
            Some(Type::Container)
        } else {
            None
        }
    }

    /// Value read from a wire value: a value that names none reads as `Container`.
    pub open spec fn from_value_or_default(v: i32) -> Type {
        match Type::from_value(v) {
            Some(s) => s,
            None => Type::Container,
        }
    }

    /// The wire value.
    pub fn to_i32(self) -> (r: i32)
        ensures
            r == self.value(),
    {
        match self {
            Type::Container => 0,
        }
    }

    /// The value named by a wire value, or `None` for a wire value that names none.
    pub fn from_i32(v: i32) -> (r: Option<Type>)
        ensures
            r == Type::from_value(v),
    {
        if v == 0 {
            Some(Type::Container)
        } else {
            None
        }
    }

    /// Reading back a wire value gives the value it was made from, and a wire value that
    /// names a value is that value's wire value.
    pub proof fn lemma_value_round_trip(s: Type, v: i32)
        ensures
            Type::from_value(s.value()) == Some(s),
            Type::from_value(v) matches Some(t) ==> t.value() == v,
    {
    }
}

/// Signal sent to a running workload.
#[derive(Debug, Clone, Copy, PartialEq, Eq, Structural)]
pub enum Signal {
    Stop,
    Kill,
}

impl Signal {
    /// Wire value.
    pub open spec fn value(self) -> i32 {
        match self {
            Signal::Stop => 0,
            Signal::Kill => 1,
        }
    }

    /// Value named by a wire value, if any.
    pub open spec fn from_value(v: i32) -> Option<Signal> {
        if v == 0 {
            Some(Signal::Stop)
        } else if v == 1 {
            Some(Signal::Kill)
        } else {
            None
        }
    }

    /// Value read from a wire value: a value that names none reads as `Stop`.
    pub open spec fn from_value_or_default(v: i32) -> Signal {
        match Signal::from_value(v) {
            Some(s) => s,
            None => Signal::Stop,
        }
    }

    /// The wire value.
    pub fn to_i32(self) -> (r: i32)
        ensures
            r == self.value(),
    {
        match self {
            Signal::Stop => 0,
            Signal::Kill => 1,
        }
    }

    /// The value named by a wire value, or `None` for a wire value that names none.
    pub fn from_i32(v: i32) -> (r: Option<Signal>)
        ensures
            r == Signal::from_value(v),
    {
        if v == 0 {
            Some(Signal::Stop)
        } else if v == 1 {
            Some(Signal::Kill)
        } else {
            None
        }
    }

    /// Reading back a wire value gives the value it was made from, and a wire value that
    /// names a value is that value's wire value.
    pub proof fn lemma_value_round_trip(s: Signal, v: i32)
        ensures
            Signal::from_value(s.value()) == Some(s),
            Signal::from_value(v) matches Some(t) ==> t.value() == v,
    {
    }
}

/// Amounts of cpu (milli-cpu), memory and disk.
#[derive(Debug, Clone, Copy, PartialEq, Eq, Structural, Default)]
pub struct ResourceSummary {
    pub cpu: u64,
    pub memory: u64,
    pub disk: u64,
}

/// The limit and the current usage of resources of a workload.
#[derive(Debug, Clone, Copy, PartialEq, Eq, Structural, Default)]
pub struct Resource {
    pub limit: Option<ResourceSummary>,
    pub usage: Option<ResourceSummary>,
}

/// A port exposed by a workload: `source` on the host forwards to `destination`.
#[derive(Debug, Clone, Copy, PartialEq, Eq, Structural, Default)]
pub struct Port {
    pub source: u32,
    pub destination: u32,
}

/// A workload instance as sent to a node agent.
#[derive(Debug, Clone, PartialEq, Default)]
pub struct Instance {
    pub id: String,
    pub name: String,
    pub kind: i32,
    pub status: i32,
    pub uri: String,
    pub environment: Vec<String>,
    pub resource: Option<Resource>,
    pub ports: Vec<Port>,
    pub ip: String,
}

impl Instance {
    /// The kind of workload; a wire value that names none reads as `Container`.
    pub fn kind(&self) -> (r: Type)
        ensures
            r == Type::from_value_or_default(self.kind),
    {
        match Type::from_i32(self.kind) {
            Some(t) => t,
            None => Type::Container,
        }
    }
}

/// A status report of a node agent about one of its workloads.
#[derive(Debug, Clone, PartialEq, Default)]
pub struct InstanceStatus {
    pub id: String,
    pub status: i32,
    pub description: String,
    pub resource: Option<Resource>,
}

impl InstanceStatus {
    /// The reported status; a wire value that names none reads as `Unknown`.
    pub fn status(&self) -> (r: Status)
        ensures
            r == Status::from_value_or_default(self.status),
    {
        match Status::from_i32(self.status) {
            Some(s) => s,
            None => Status::Unknown,
        }
    }
}

/// A signal to deliver to a workload.
#[derive(Debug, Clone, PartialEq, Default)]
pub struct SignalInstruction {
    pub signal: i32,
    pub instance: Option<Instance>,
}

} // verus!
