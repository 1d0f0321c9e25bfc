//! The decisions of the handlers of the scheduler's events: what each handler answers,
//! reports, and which follow-up event it raises.
use crate::node::Node;
use crate::proto::{agent, scheduler};
use crate::text::{orchestrator_failure, orchestrator_failure_text};
use crate::OrchestratorError;
use vstd::prelude::*;

verus! {

/// The length of a textual UUID (8-4-4-4-12 hexadecimal digits).
pub const UUID_TEXT_LEN: usize = 36;

/// Whether `c` is a lowercase hexadecimal digit.
pub open spec fn is_lower_hex(c: char) -> bool {
    ('0' <= c && c <= '9') || ('a' <= c && c <= 'f')
}

/// `s` is the hyphenated lowercase text of a random (version 4, RFC 4122 variant) UUID.
pub open spec fn is_uuid_v4_text(s: Seq<char>) -> bool {
    &&& s.len() == UUID_TEXT_LEN
    &&& s[8] == '-' && s[13] == '-' && s[18] == '-' && s[23] == '-'
    &&& s[14] == '4'
    &&& (s[19] == '8' || s[19] == '9' || s[19] == 'a' || s[19] == 'b')
    &&& forall|i: int|
        0 <= i < s.len() && i != 8 && i != 13 && i != 18 && i != 23 ==> is_lower_hex(#[trigger] s[i])
}

/// A fresh random identifier: `uuid::Uuid::new_v4()` rendered with `to_string()`, which
/// gives the hyphenated lowercase form of a version 4, RFC 4122 variant UUID. Which
/// identifier comes out is
/// left open: it is random.
#[verifier::external_body]
fn new_uuid_v4() -> (r: String)
    ensures
        is_uuid_v4_text(r@),
{
    uuid::Uuid::new_v4().to_string()
}

/// How the stream of status reports of an instance ended.
#[derive(Debug, Clone, Copy, PartialEq, Eq, Structural)]
pub enum StreamEnd {
    /// The last report said the instance terminated or failed.
    Terminated,
    /// The stream ended on any other last report, or on none.
    Crashed,
}

/// Schedules new instances and forwards their status reports to the controller.
pub struct InstanceCreateHandler {}

impl InstanceCreateHandler {
    /// The report sent to the controller when scheduling the instance `id` failed with `err`.
    pub fn failure_status(id: String, err: &OrchestratorError) -> (r: scheduler::InstanceStatus)
        ensures
            r.id == id,
            r.status == scheduler::Status::Failed.value(),
            r.status_description@ == orchestrator_failure_text(*err),
            r.resource is None,
    {
        scheduler::InstanceStatus {
            id,
            status: scheduler::Status::Failed.to_i32(),
            status_description: orchestrator_failure(err),
            resource: None,
        }
    }

    /// How a stream of status reports ended, given the status of its last report.
    pub fn stream_end(last_status: Option<agent::Status>) -> (r: StreamEnd)
        ensures
            r == (if last_status == Some(agent::Status::Terminated) || last_status == Some(
                agent::Status::Failed,
            ) {
                StreamEnd::Terminated
            } else {
                StreamEnd::Crashed
            }),
    {
        match last_status {
            Some(agent::Status::Terminated) => StreamEnd::Terminated,
            Some(agent::Status::Failed) => StreamEnd::Terminated,
            _ => StreamEnd::Crashed,
        }
    }
}

/// Destroys instances.
pub struct InstanceDestroyHandler {}

impl InstanceDestroyHandler {
    /// The message of the internal error answered when destroying failed with `err`.
    pub fn failure_message(err: &OrchestratorError) -> (r: String)
        ensures
            r@ == orchestrator_failure_text(*err),
    {
        orchestrator_failure(err)
    }
}

/// Stops instances.
pub struct InstanceStopHandler {}

impl InstanceStopHandler {
    /// The message of the internal error answered when stopping failed with `err`.
    pub fn failure_message(err: &OrchestratorError) -> (r: String)
        ensures
            r@ == orchestrator_failure_text(*err),
    {
        orchestrator_failure(err)
    }
}

/// Deletes instances whose status stream crashed.
pub struct InstanceStreamCrashHandler {}

impl InstanceStreamCrashHandler {
    /// The description of the termination of an instance whose status stream crashed.
    pub fn description() -> (r: String)
        ensures
            r@ == "instance status stream crashed"@,
    {
        "instance status stream crashed".to_string()
    }
}

/// Deletes instances that terminated or failed.
pub struct InstanceTerminatedHandler {}

/// Registers nodes that join the cluster.
pub struct NodeRegisterHandler {}

impl NodeRegisterHandler {
    /// A node that joins the cluster: a fresh random identifier, starting, no resource known.
    pub fn new_node() -> (r: Node)
        ensures
            is_uuid_v4_text(r.id@),
            r.status == scheduler::Status::Starting,
            r.resource is None,
    {
        Self::starting_node(new_uuid_v4())
    }

    /// A node that joins the cluster under the identifier `id`: starting, no resource known.
    pub fn starting_node(id: String) -> (r: Node)
        ensures
            r.id == id,
            r.status == scheduler::Status::Starting,
            r.resource is None,
    {
        Node { id, status: scheduler::Status::Starting, resource: None }
    }

    /// The answer to a node agent once its registration succeeded or failed.
    pub fn response(result: &Result<(), OrchestratorError>) -> (r: scheduler::NodeRegisterResponse)
        ensures
            match result {
                Ok(_) => r.code == 0 && r.description@ == "Welcome to the cluster"@,
                Err(e) => r.code == 1 && r.description@ == orchestrator_failure_text(*e),
            },
            r.subnet@ == Seq::<char>::empty(),
    {
        match result {
            Ok(_) => scheduler::NodeRegisterResponse {
                code: 0,
                description: "Welcome to the cluster".to_string(),
                subnet: String::new(),
            },
            Err(e) => scheduler::NodeRegisterResponse {
                code: 1,
                description: orchestrator_failure(e),
                subnet: String::new(),
            },
        }
    }
}

/// Forwards the status of nodes.
pub struct NodeStatusHandler {}

impl NodeStatusHandler {
    /// The message of the internal error answered when recording a node status failed.
    pub fn failure_message(err: &OrchestratorError) -> (r: String)
        ensures
            r@ == orchestrator_failure_text(*err),
    {
        orchestrator_failure(err)
    }
}

/// Unregisters nodes whose status stream crashed.
pub struct NodeStreamCrashHandler {}

impl NodeStreamCrashHandler {
    /// The description of the termination of a node whose status stream crashed.
    pub fn description() -> (r: String)
        ensures
            r@ == "Node stream crashed"@,
    {
        "Node stream crashed".to_string()
    }
}

/// Unregisters nodes that leave the cluster.
pub struct NodeUnregisterHandler {}

impl NodeUnregisterHandler {
    /// The answer to a node agent once its unregistration succeeded or failed.
    pub fn response(result: &Result<(), OrchestratorError>) -> (r: scheduler::NodeUnregisterResponse)
        ensures
            match result {
                Ok(_) => r.code == 0 && r.description@ == "Bye from the cluster"@,
                Err(e) => r.code == 1 && r.description@ == orchestrator_failure_text(*e),
            },
    {
        match result {
            Ok(_) => scheduler::NodeUnregisterResponse {
                code: 0,
                description: "Bye from the cluster".to_string(),
            },
            Err(e) => scheduler::NodeUnregisterResponse { code: 1, description: orchestrator_failure(e) },
        }
    }
}

/// What happens on the stream of status reports a node agent sends to the scheduler.
#[derive(Debug)]
pub enum NodeStreamEvent<E> {
    /// A status report arrived.
    Message(scheduler::NodeStatus),
    /// The manager answered the report forwarded last; `None` when no answer came.
    Reply(Option<Result<(), E>>),
    /// The stream ended.
    Ended,
    /// Reading the stream failed with this error.
    Failed(E),
}

/// What the scheduler does next on a node's status stream.
#[derive(Debug)]
pub enum NodeStreamAction<E> {
    /// Hand this report to the manager and wait for its answer.
    Forward(scheduler::NodeStatus),
    /// Read the next report.
    Continue,
    /// Close the stream with this answer.
    Finish(Result<(), E>),
    /// Report that the stream of the node with this id crashed, then close the stream with
    /// this error.
    Crash(String, E),
}

/// One step of the scheduler on a node's status stream, given the id of the first report
/// received (if any) and what happened. A report is forwarded, and its id kept when none
/// is yet; an answer that refuses the report closes the stream with that error, any other
/// answer (or none) reads on; the end of the stream closes it with success; a failure
/// closes it with the error, after reporting a crash of the node when an id is known.
pub fn node_stream_step<E>(first_id: Option<String>, event: NodeStreamEvent<E>) -> (r: (
    Option<String>,
    NodeStreamAction<E>,
))
    ensures
        match event {
            NodeStreamEvent::Message(status) => {
                &&& r.0 == (if first_id is None {
                    Some(status.id)
                } else {
                    first_id
                })
                &&& r.1 == NodeStreamAction::<E>::Forward(status)
            },
            NodeStreamEvent::Reply(Some(Err(e))) => r.0 == first_id && r.1 == NodeStreamAction::<E>::Finish(
                Err(e),
            ),
            NodeStreamEvent::Reply(_) => r.0 == first_id && r.1 == NodeStreamAction::<E>::Continue,
            NodeStreamEvent::Ended => r.0 == first_id && r.1 == NodeStreamAction::<E>::Finish(Ok(())),
            NodeStreamEvent::Failed(e) => r.0 == first_id && match first_id {
                Some(id) => r.1 == NodeStreamAction::<E>::Crash(id, e),
                None => r.1 == NodeStreamAction::<E>::Finish(Err(e)),
            },
        },
{
    match event {
        NodeStreamEvent::Message(status) => {
            let id = match first_id {
                Some(id) => Some(id),
                None => Some(status.id.clone()),
            };
            (id, NodeStreamAction::Forward(status))
        },
        NodeStreamEvent::Reply(Some(Err(e))) => (first_id, NodeStreamAction::Finish(Err(e))),
        NodeStreamEvent::Reply(_) => (first_id, NodeStreamAction::Continue),
        NodeStreamEvent::Ended => (first_id, NodeStreamAction::Finish(Ok(()))),
        NodeStreamEvent::Failed(e) => match first_id {
            Some(id) => {
                let known = id.clone();
                (Some(id), NodeStreamAction::Crash(known, e))
            },
            None => (None, NodeStreamAction::Finish(Err(e))),
        },
    }
}

} // verus!
