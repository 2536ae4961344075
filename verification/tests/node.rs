use microscope::node::{enqueued_message, plan_request, NodeAction, NodeRequest};

fn params(exposure: u32) -> Vec<(String, u32)> {
    vec![("exposure".to_string(), exposure)]
}

#[test]
fn form_requests_are_answered_to_their_client() {
    let a = plan_request(
        NodeRequest::WithTaskParams {
            task_name: "focus_stacking".to_string(),
            source_uuid: Some("c1".to_string()),
            params: params(5),
        },
        true,
    );
    match a {
        NodeAction::Describe { task_name, reply_to, params: p } => {
            assert_eq!(task_name, "focus_stacking");
            assert_eq!(reply_to, "c1");
            assert_eq!(p, params(5));
        }
        _ => panic!("expected a description"),
    }
    let a = plan_request(
        NodeRequest::WithTaskParams { task_name: "x".to_string(), source_uuid: None, params: params(1) },
        true,
    );
    assert!(matches!(a, NodeAction::Ignore));
    let a = plan_request(
        NodeRequest::WithTaskParams { task_name: "x".to_string(), source_uuid: Some("c".to_string()), params: params(1) },
        false,
    );
    assert!(matches!(a, NodeAction::Ignore));
}

#[test]
fn start_requests_queue_known_tasks() {
    let a = plan_request(
        NodeRequest::StartTask {
            compute_node_uuid: "n1".to_string(),
            task_name: "focus_stacking".to_string(),
            params: params(7),
        },
        true,
    );
    match a {
        NodeAction::Enqueue { task_name, compute_node_uuid, params: p } => {
            assert_eq!(task_name, "focus_stacking");
            assert_eq!(compute_node_uuid, "n1");
            assert_eq!(p, params(7));
        }
        _ => panic!("expected the task to be queued"),
    }
    let a = plan_request(
        NodeRequest::StartTask { compute_node_uuid: "n1".to_string(), task_name: "blur".to_string(), params: params(7) },
        false,
    );
    match a {
        NodeAction::UnknownTask { message } => assert_eq!(message, "Received StartTask for unknown task: blur"),
        _ => panic!("expected an unknown task"),
    }
    assert!(matches!(plan_request(NodeRequest::<Vec<(String, u32)>>::Other, true), NodeAction::Ignore));
    assert_eq!(enqueued_message("n1"), "Enqueued FocusStacking task for compute node: n1");
}
