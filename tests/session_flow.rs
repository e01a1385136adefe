use services::approval::ApprovalGate;
use services::entry::{ActionType, EntryUpdateError, NormalizedEntry, NormalizedEntryType};
use services::patch::{apply_patch, ConversationPatch};
use services::session::{SessionError, ToolSession};
use services::status::{ApprovalStatus, ToolEvent, ToolStatus, TransitionError};

fn tool(id: &str) -> NormalizedEntry {
    NormalizedEntry::tool_use("bash".to_string(), id.to_string(), Some(ActionType::Execute), "ls".to_string(), None)
}

fn message(text: &str) -> NormalizedEntry {
    NormalizedEntry {
        timestamp: Some("2024-01-01T00:00:00Z".to_string()),
        entry_type: NormalizedEntryType::Message { content: text.to_string() },
        content: text.to_string(),
        metadata: None,
    }
}

fn status_at(s: &ToolSession, i: usize) -> ToolStatus {
    s.get(i).unwrap().tool_status().unwrap().clone()
}

#[test]
fn timed_out_tool_call_is_replaced_at_its_add_index() {
    let mut session = ToolSession::new();
    let mut receiver: Vec<NormalizedEntry> = Vec::new();
    let p = session.push_entry(message("hello")).unwrap();
    apply_patch(&mut receiver, p).unwrap();
    let add = session.push_entry(tool("tc1")).unwrap();
    let added_at = match &add {
        ConversationPatch::Add { index, .. } => *index,
        _ => panic!("expected add"),
    };
    assert_eq!(added_at, 1);
    apply_patch(&mut receiver, add).unwrap();
    let id = "tc1".to_string();
    session.advance_tool_call(&id, ToolEvent::Dispatched).unwrap();
    let mut gate = ApprovalGate::new(30_000);
    let t = gate.request_approval("bash", "tc1", 1_000).unwrap();
    assert_eq!(t.timeout_at, t.requested_at + 30_000);
    session
        .advance_tool_call(&id, t.approval_event())
        .unwrap();
    assert!(gate.expire(30_999).is_empty());
    assert_eq!(gate.expire(31_000), vec![t.approval_id]);
    let decision = gate.status(t.approval_id).unwrap();
    let p = session.advance_tool_call(&id, ToolEvent::GateResolved { decision }).unwrap();
    match &p {
        ConversationPatch::Replace { index, entry } => {
            assert_eq!(*index, added_at);
            assert!(matches!(entry.tool_status(), Some(ToolStatus::TimedOut)));
        }
        _ => panic!("expected replace"),
    }
    apply_patch(&mut receiver, p).unwrap();
    assert!(matches!(receiver[1].tool_status(), Some(ToolStatus::TimedOut)));
    let again = session.advance_tool_call(&id, ToolEvent::Started);
    assert!(matches!(again, Err(SessionError::Update(EntryUpdateError::Transition(TransitionError::Terminal)))));
}

#[test]
fn concurrent_tool_calls_do_not_interfere() {
    let mut session = ToolSession::new();
    session.push_entry(tool("tc1")).unwrap();
    session.push_entry(tool("tc2")).unwrap();
    let a = "tc1".to_string();
    let b = "tc2".to_string();
    session.advance_tool_call(&a, ToolEvent::Dispatched).unwrap();
    session.advance_tool_call(&b, ToolEvent::Dispatched).unwrap();
    session.advance_tool_call(&a, ToolEvent::Started).unwrap();
    assert!(matches!(status_at(&session, 1), ToolStatus::Pending));
    session.advance_tool_call(&b, ToolEvent::Started).unwrap();
    assert!(matches!(status_at(&session, 0), ToolStatus::Running));
    assert!(matches!(status_at(&session, 1), ToolStatus::Running));
    session.advance_tool_call(&a, ToolEvent::FailedWith { error: "exit 2".to_string() }).unwrap();
    assert!(matches!(status_at(&session, 1), ToolStatus::Running));
    let p = session.advance_tool_call(&b, ToolEvent::Succeeded { result: None }).unwrap();
    assert!(matches!(p, ConversationPatch::Replace { index: 1, .. }));
    assert!(matches!(status_at(&session, 0), ToolStatus::Failed { .. }));
}

#[test]
fn session_refuses_duplicates_and_unknown_ids() {
    let mut session = ToolSession::new();
    session.push_entry(tool("tc1")).unwrap();
    assert!(matches!(session.push_entry(tool("tc1")), Err(SessionError::DuplicateToolCall)));
    assert_eq!(session.len(), 1);
    let unknown = "nope".to_string();
    assert!(matches!(session.advance_tool_call(&unknown, ToolEvent::Dispatched), Err(SessionError::UnknownToolCall)));
    assert_eq!(session.find_tool_call(&"tc1".to_string()), Some(0));
    session.push_entry(message("m")).unwrap();
    session.push_entry(message("m")).unwrap();
    assert_eq!(session.len(), 3);
}

#[test]
fn entry_status_update_on_non_tool_entry_fails() {
    let m = message("x");
    assert!(m.clone().with_tool_status(ToolStatus::Running).is_none());
    assert!(matches!(m.advance(ToolEvent::Dispatched), Err(EntryUpdateError::NotToolUse)));
    let t = tool("tc9").with_tool_status(ToolStatus::Running).unwrap();
    assert!(matches!(t.tool_status(), Some(ToolStatus::Running)));
    assert_eq!(t.tool_call_id().unwrap(), "tc9");
    let pa = ToolStatus::PendingApproval { approval_id: "0".to_string(), requested_at: 0, timeout_at: 1 };
    let r = tool("tc3").advance(ToolEvent::Started);
    assert!(matches!(r, Err(EntryUpdateError::Transition(TransitionError::NotApplicable))));
    let t = tool("tc3").with_tool_status(pa).unwrap();
    let r = t.advance(ToolEvent::GateResolved { decision: ApprovalStatus::Approved }).unwrap();
    assert!(matches!(r.tool_status(), Some(ToolStatus::Running)));
    assert!(matches!(t.tool_status(), Some(ToolStatus::PendingApproval { .. })));
}

#[test]
fn terminal_entry_status_cannot_be_overwritten() {
    let terminals = vec![
        ToolStatus::Completed { result: None },
        ToolStatus::Failed { error: "e".to_string() },
        ToolStatus::Rejected,
        ToolStatus::TimedOut,
    ];
    for t in terminals {
        let e = tool("tc1").with_tool_status(ToolStatus::Running).unwrap().with_tool_status(t).unwrap();
        assert!(e.clone().with_tool_status(ToolStatus::Running).is_none());
        assert!(e.clone().with_tool_status(ToolStatus::TimedOut).is_none());
        assert!(e.clone().with_tool_status(ToolStatus::from_approval_status(ApprovalStatus::Approved)).is_none());
    }
}

#[test]
fn first_attached_decision_stays() {
    let pa = ToolStatus::PendingApproval { approval_id: "7".to_string(), requested_at: 0, timeout_at: 10 };
    let waiting = tool("tc1").with_tool_status(pa).unwrap();
    let denied = waiting
        .with_tool_status(ToolStatus::from_approval_status(ApprovalStatus::Denied { reason: None }))
        .unwrap();
    assert!(matches!(denied.tool_status(), Some(ToolStatus::Rejected)));
    assert!(denied.clone().with_tool_status(ToolStatus::from_approval_status(ApprovalStatus::TimedOut)).is_none());
    assert!(matches!(denied.tool_status(), Some(ToolStatus::Rejected)));
}

#[test]
fn invalid_status_is_not_attached() {
    let e = tool("tc1");
    assert!(e.clone().with_tool_status(ToolStatus::Failed { error: String::new() }).is_none());
    let bad = ToolStatus::PendingApproval { approval_id: "1".to_string(), requested_at: 5, timeout_at: 5 };
    assert!(e.clone().with_tool_status(bad).is_none());
    assert!(e.with_tool_status(ToolStatus::Failed { error: "x".to_string() }).is_some());
}
