use services::approval::{ApprovalGate, ExecutorApprovalError};
use services::status::ApprovalStatus;

#[test]
fn request_records_deadline() {
    let mut g = ApprovalGate::new(30_000);
    let t = g.request_approval("bash", "tc1", 1_000).unwrap();
    assert_eq!(t.approval_id, 0);
    assert_eq!(t.requested_at, 1_000);
    assert_eq!(t.timeout_at, 31_000);
    let t2 = g.request_approval("edit", "tc2", 2_000).unwrap();
    assert_eq!(t2.approval_id, 1);
    assert_eq!(g.len(), 2);
    assert!(matches!(g.status(0), Some(ApprovalStatus::Pending)));
    assert!(g.status(7).is_none());
}

#[test]
fn malformed_and_overflowing_requests_fail() {
    let mut g = ApprovalGate::new(10);
    assert!(matches!(g.request_approval("", "tc1", 0), Err(ExecutorApprovalError::MalformedInput)));
    assert!(matches!(g.request_approval("bash", "", 0), Err(ExecutorApprovalError::MalformedInput)));
    assert!(matches!(g.request_approval("bash", "tc1", i64::MAX - 5), Err(ExecutorApprovalError::DeadlineOverflow)));
    assert_eq!(g.len(), 0);
}

#[test]
fn first_decision_wins() {
    let mut g = ApprovalGate::new(30_000);
    let t = g.request_approval("bash", "tc1", 0).unwrap();
    let r1 = g.resolve(t.approval_id, ApprovalStatus::Approved, 100).unwrap();
    assert!(matches!(r1, ApprovalStatus::Approved));
    let r2 = g.resolve(t.approval_id, ApprovalStatus::Denied { reason: Some("late".to_string()) }, 200).unwrap();
    assert!(matches!(r2, ApprovalStatus::Approved));
    assert!(matches!(g.status(t.approval_id), Some(ApprovalStatus::Approved)));
    assert!(g.expire(100_000).is_empty());
}

#[test]
fn unknown_id_is_an_error() {
    let mut g = ApprovalGate::new(5);
    assert!(matches!(
        g.resolve(3, ApprovalStatus::Approved, 0),
        Err(ExecutorApprovalError::UnknownApproval { approval_id: 3 })
    ));
}

#[test]
fn timeout_fires_once_at_deadline() {
    let mut g = ApprovalGate::new(30_000);
    let t = g.request_approval("bash", "tc1", 1_000).unwrap();
    assert!(g.expire(30_999).is_empty());
    assert!(matches!(g.poll(t.approval_id, 30_999), Ok(ApprovalStatus::Pending)));
    assert_eq!(g.expire(31_000), vec![0]);
    assert!(g.expire(40_000).is_empty());
    assert!(matches!(g.status(0), Some(ApprovalStatus::TimedOut)));
    let late = g.resolve(0, ApprovalStatus::Approved, 40_001).unwrap();
    assert!(matches!(late, ApprovalStatus::TimedOut));
}

#[test]
fn decision_at_deadline_loses_to_timeout() {
    let mut g = ApprovalGate::new(100);
    let t = g.request_approval("bash", "tc1", 0).unwrap();
    let r = g.resolve(t.approval_id, ApprovalStatus::Approved, 100).unwrap();
    assert!(matches!(r, ApprovalStatus::TimedOut));
    assert!(matches!(g.poll(t.approval_id, 101), Ok(ApprovalStatus::TimedOut)));
}

#[test]
fn expire_reports_only_due_requests_in_order() {
    let mut g = ApprovalGate::new(10);
    g.request_approval("a", "tc1", 0).unwrap();
    g.request_approval("b", "tc2", 5).unwrap();
    g.request_approval("c", "tc3", 1).unwrap();
    g.resolve(2, ApprovalStatus::Approved, 3).unwrap();
    assert_eq!(g.expire(12), vec![0]);
    assert_eq!(g.expire(15), vec![1]);
}

#[test]
fn null_tool_input_is_malformed() {
    let mut g = ApprovalGate::new(1_000);
    let r = g.request_tool_approval("bash", &serde_json::Value::Null, "tc1", 0);
    assert!(matches!(r, Err(ExecutorApprovalError::MalformedInput)));
    assert_eq!(g.len(), 0);
    let input = serde_json::Value::String("ls".to_string());
    let t = g.request_tool_approval("bash", &input, "tc1", 0).unwrap();
    assert_eq!(t.timeout_at, 1_000);
    assert_eq!(g.len(), 1);
}

#[test]
fn ticket_ids_as_text() {
    let mut g = ApprovalGate::new(10);
    for i in 0..12 {
        g.request_approval("bash", "tc", i).unwrap();
    }
    let t = g.request_approval("bash", "tc", 100).unwrap();
    assert_eq!(t.approval_id, 12);
    assert_eq!(t.approval_id_text(), "12");
    match t.approval_event() {
        services::status::ToolEvent::ApprovalRequired { approval_id, requested_at, timeout_at } => {
            assert_eq!(approval_id, "12");
            assert_eq!((requested_at, timeout_at), (100, 110));
        }
        _ => panic!("expected ApprovalRequired"),
    }
}
