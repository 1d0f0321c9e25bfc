use vstd::prelude::*;

verus! {

/// State of a node, as reported to the controller.
#[derive(Debug, Clone, Copy, PartialEq, Eq, Structural)]
pub enum NodeState {
    Unknown,
    Registering,
    Registered,
    Unregistering,
    Unregistered,
    Failing,
}

impl NodeState {
    /// Wire value.
    pub open spec fn value(self) -> i32 {
        match self {
            NodeState::Unknown => 0,
            NodeState::Registering => 1,
            NodeState::Registered => 2,
            NodeState::Unregistering => 3,
            NodeState::Unregistered => 4,
            NodeState::Failing => 5,
        }
    }

    /// Value named by a wire value, if any.
    pub open spec fn from_value(v: i32) -> Option<NodeState> {
        if v == 0 {
            Some(NodeState::Unknown)
        } else if v == 1 {
            Some(NodeState::Registering)
        } else if v == 2 {
            Some(NodeState::Registered)
        } else if v == 3 {
            Some(NodeState::Unregistering)
        } else if v == 4 {
            Some(NodeState::Unregistered)
        } else if v == 5 {
            Some(NodeState::Failing)
        } else {
            None
        }
    }

    /// Value read from a wire value: a value that names none reads as `Unknown`.
    pub open spec fn from_value_or_default(v: i32) -> NodeState {
        match NodeState::from_value(v) {
            Some(s) => s,
            None => NodeState::Unknown,
        }
    }

    /// The wire value.
    pub fn to_i32(self) -> (r: i32)
        ensures
            r == self.value(),
    {
        match self {
            NodeState::Unknown => 0,
            NodeState::Registering => 1,
            NodeState::Registered => 2,
            NodeState::Unregistering => 3,
            NodeState::Unregistered => 4,
            NodeState::Failing => 5,
        }
    }

    /// The value named by a wire value, or `None` for a wire value that names none.
    pub fn from_i32(v: i32) -> (r: Option<NodeState>)
        ensures
            r == NodeState::from_value(v),
    {
        if v == 0 {
            Some(NodeState::Unknown)
        } else if v == 1 {
            Some(NodeState::Registering)
        } else if v == 2 {
            Some(NodeState::Registered)
        } else if v == 3 {
            Some(NodeState::Unregistering)
        } else if v == 4 {
            Some(NodeState::Unregistered)
        } else if v == 5 {
            Some(NodeState::Failing)
        } else {
            None
        }
    }

    /// Reading back a wire value gives the value it was made from, and a wire value that
    /// names a value is that value's wire value.
    pub proof fn lemma_value_round_trip(s: NodeState, v: i32)
        ensures
            NodeState::from_value(s.value()) == Some(s),
            NodeState::from_value(v) matches Some(t) ==> t.value() == v,
    {
    }
}

/// Amounts of cpu (milli-cpu), memory and disk.
#[derive(Debug, Clone, Copy, PartialEq, Eq, Structural, Default)]
pub struct ResourceSummary {
    pub cpu: u64,
    pub memory: u64,
    pub disk: u64,
}

/// The limit and the current usage of resources of a node or an instance.
#[derive(Debug, Clone, Copy, PartialEq, Eq, Structural, Default)]
pub struct Resource {
    pub limit: Option<ResourceSummary>,
    pub usage: Option<ResourceSummary>,
}

/// A port exposed by an instance: `source` on the host forwards to `destination`.
#[derive(Debug, Clone, Copy, PartialEq, Eq, Structural, Default)]
pub struct Port {
    pub source: u32,
    pub destination: u32,
}

/// An instance as reported to the controller.
#[derive(Debug, Clone, PartialEq, Default)]
pub struct Instance {
    pub id: String,
    pub name: String,
    pub kind: i32,
    pub state: i32,
    pub uri: String,
    pub environnement: Vec<String>,
    pub resource: Option<Resource>,
    pub ports: Vec<Port>,
    pub ip: String,
}

/// A status report about a node, sent to the controller.
#[derive(Debug, Clone, PartialEq, Default)]
pub struct NodeStatus {
    pub id: String,
    pub state: i32,
    pub status_description: String,
    pub resource: Option<Resource>,
    pub instances: Vec<Instance>,
}

} // verus!
