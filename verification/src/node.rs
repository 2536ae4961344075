//! How a compute node answers the messages the backend sends it.
use vstd::prelude::*;

use crate::text::{chars_of, push_chars, string_from_chars};

verus! {

/// What a compute node reads of a message from the backend; `P` holds the
/// task parameters the message carries.
#[derive(Debug)]
pub enum NodeRequest<P> {
    /// The form of a task is asked for, with the parameters chosen so far.
    WithTaskParams { task_name: String, source_uuid: Option<String>, params: P },
    /// A task is to be run with the given parameters.
    StartTask { compute_node_uuid: String, task_name: String, params: P },
    /// Any other message.
    Other,
}

/// What the compute node does about a request.
#[derive(Debug)]
pub enum NodeAction<P> {
    /// Nothing.
    Ignore,
    /// Describe the task under the parameters `params` and send the form
    /// back to the client `reply_to`.
    Describe { task_name: String, reply_to: String, params: P },
    /// Queue the task with its parameters for execution.
    Enqueue { task_name: String, compute_node_uuid: String, params: P },
    /// Report that the task is unknown.
    UnknownTask { message: String },
}

/// The report of a start request for a task the node does not offer.
pub open spec fn unknown_task_text(task_name: Seq<char>) -> Seq<char> {
    "Received StartTask for unknown task: "@ + task_name
}

/// The report of a queued task.
pub open spec fn enqueued_text(compute_node_uuid: Seq<char>) -> Seq<char> {
    "Enqueued FocusStacking task for compute node: "@ + compute_node_uuid
}

/// The action for `request`, given whether the node offers the task it
/// names: a form request without a client to answer is ignored, and so is
/// one for an unknown task; a start request queues a known task and reports
/// an unknown one. The parameters of the request go with the task.
pub fn plan_request<P>(request: NodeRequest<P>, task_known: bool) -> (a: NodeAction<P>)
    ensures
        match request {
            NodeRequest::WithTaskParams { task_name, source_uuid, params } => match source_uuid {
                Some(client) => if task_known {
                    a == (NodeAction::Describe { task_name, reply_to: client, params })
                } else {
                    a is Ignore
                },
                None => a is Ignore,
            },
            NodeRequest::StartTask { compute_node_uuid, task_name, params } => if task_known {
                a == (NodeAction::Enqueue { task_name, compute_node_uuid, params })
            } else {
                a matches NodeAction::UnknownTask { message } && message@ == unknown_task_text(
                    task_name@,
                )
            },
            NodeRequest::Other => a is Ignore,
        },
{
    match request {
        NodeRequest::WithTaskParams { task_name, source_uuid, params } => match source_uuid {
            Some(client) => if task_known {
                NodeAction::Describe { task_name, reply_to: client, params }
            } else {
                NodeAction::Ignore
            },
            None => NodeAction::Ignore,
        },
        NodeRequest::StartTask { compute_node_uuid, task_name, params } => if task_known {
            NodeAction::Enqueue { task_name, compute_node_uuid, params }
        } else {
            let mut v = chars_of("Received StartTask for unknown task: ");
            let t = chars_of(task_name.as_str());
            push_chars(&mut v, t.as_slice());
            NodeAction::UnknownTask { message: string_from_chars(&v) }
        },
        NodeRequest::Other => NodeAction::Ignore,
    }
}

/// The report of a task queued for compute node `compute_node_uuid`.
pub fn enqueued_message(compute_node_uuid: &str) -> (m: String)
    ensures
        m@ == enqueued_text(compute_node_uuid@),
{
    let mut v = chars_of("Enqueued FocusStacking task for compute node: ");
    let t = chars_of(compute_node_uuid);
    push_chars(&mut v, t.as_slice());
    string_from_chars(&v)
}

} // verus!
