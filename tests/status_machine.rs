use services::status::{ApprovalStatus, ToolEvent, ToolStatus, TransitionError};

fn all_events() -> Vec<ToolEvent> {
    vec![
        ToolEvent::Dispatched,
        ToolEvent::ApprovalRequired { approval_id: "0".to_string(), requested_at: 0, timeout_at: 10 },
        ToolEvent::Started,
        ToolEvent::GateResolved { decision: ApprovalStatus::Approved },
        ToolEvent::GateResolved { decision: ApprovalStatus::Denied { reason: None } },
        ToolEvent::GateResolved { decision: ApprovalStatus::TimedOut },
        ToolEvent::Succeeded { result: Some("ok".to_string()) },
        ToolEvent::FailedWith { error: "boom".to_string() },
    ]
}

#[test]
fn terminal_states_refuse_every_event() {
    let terminals = vec![
        ToolStatus::Completed { result: None },
        ToolStatus::Failed { error: "e".to_string() },
        ToolStatus::Rejected,
        ToolStatus::TimedOut,
    ];
    for s in terminals.iter() {
        assert!(s.is_terminal());
        for e in all_events() {
            assert!(matches!(s.transition(e), Err(TransitionError::Terminal)));
        }
    }
}

#[test]
fn approval_path_reaches_completed() {
    let s = ToolStatus::Created;
    let s = s.transition(ToolEvent::Dispatched).unwrap();
    assert!(matches!(s, ToolStatus::Pending));
    let s = s
        .transition(ToolEvent::ApprovalRequired { approval_id: "4".to_string(), requested_at: 1_000, timeout_at: 31_000 })
        .unwrap();
    match &s {
        ToolStatus::PendingApproval { approval_id, requested_at, timeout_at } => {
            assert_eq!(approval_id, "4");
            assert_eq!((*requested_at, *timeout_at), (1_000, 31_000));
        }
        _ => panic!("expected PendingApproval"),
    }
    let s = s.transition(ToolEvent::GateResolved { decision: ApprovalStatus::Approved }).unwrap();
    assert!(matches!(s, ToolStatus::Running));
    let s = s.transition(ToolEvent::Succeeded { result: Some("done".to_string()) }).unwrap();
    match s {
        ToolStatus::Completed { result } => assert_eq!(result, Some("done".to_string())),
        _ => panic!("expected Completed"),
    }
}

#[test]
fn denied_and_timed_out_decisions() {
    let pa = ToolStatus::PendingApproval { approval_id: "1".to_string(), requested_at: 0, timeout_at: 5 };
    let r = pa.transition(ToolEvent::GateResolved { decision: ApprovalStatus::Denied { reason: Some("no".to_string()) } });
    assert!(matches!(r, Ok(ToolStatus::Rejected)));
    let r = pa.transition(ToolEvent::GateResolved { decision: ApprovalStatus::TimedOut });
    assert!(matches!(r, Ok(ToolStatus::TimedOut)));
    let r = pa.transition(ToolEvent::GateResolved { decision: ApprovalStatus::Pending });
    assert!(matches!(r, Err(TransitionError::NotApplicable)));
}

#[test]
fn invalid_payloads_are_refused() {
    let r = ToolStatus::Pending.transition(ToolEvent::ApprovalRequired { approval_id: "0".to_string(), requested_at: 10, timeout_at: 10 });
    assert!(matches!(r, Err(TransitionError::InvalidPayload)));
    let r = ToolStatus::Running.transition(ToolEvent::FailedWith { error: String::new() });
    assert!(matches!(r, Err(TransitionError::InvalidPayload)));
    let r = ToolStatus::Running.transition(ToolEvent::FailedWith { error: "exit 1".to_string() });
    match r {
        Ok(ToolStatus::Failed { error }) => assert_eq!(error, "exit 1"),
        _ => panic!("expected Failed"),
    }
}

#[test]
fn events_out_of_place_are_not_applicable() {
    assert!(matches!(ToolStatus::Created.transition(ToolEvent::Started), Err(TransitionError::NotApplicable)));
    assert!(matches!(ToolStatus::Pending.transition(ToolEvent::Dispatched), Err(TransitionError::NotApplicable)));
    assert!(matches!(ToolStatus::Approved.transition(ToolEvent::Started), Ok(ToolStatus::Running)));
    assert!(matches!(ToolStatus::Pending.transition(ToolEvent::Started), Ok(ToolStatus::Running)));
}

#[test]
fn approval_status_maps_onto_tool_status() {
    assert!(matches!(ToolStatus::from_approval_status(ApprovalStatus::Approved), ToolStatus::Approved));
    assert!(matches!(ToolStatus::from_approval_status(ApprovalStatus::Denied { reason: None }), ToolStatus::Rejected));
    assert!(matches!(ToolStatus::from_approval_status(ApprovalStatus::TimedOut), ToolStatus::TimedOut));
    assert!(matches!(ToolStatus::from_approval_status(ApprovalStatus::Pending), ToolStatus::Pending));
}
