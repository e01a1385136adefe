use vstd::prelude::*;

verus! {

/// Decision handed back by an approval backend for one request.
#[derive(Debug, Clone)]
pub enum ApprovalStatus {
    Pending,
    Approved,
    Denied { reason: Option<String> },
    TimedOut,
}

/// Lifecycle of one tool invocation. Times are milliseconds since the Unix epoch.
#[derive(Debug, Clone)]
pub enum ToolStatus {
    Created,
    Pending,
    Running,
    Completed { result: Option<String> },
    Failed { error: String },
    PendingApproval { approval_id: String, requested_at: i64, timeout_at: i64 },
    Approved,
    Rejected,
    TimedOut,
}

/// Something that happens to a tool invocation.
#[derive(Debug, Clone)]
pub enum ToolEvent {
    /// The invocation was handed to the executor.
    Dispatched,
    /// The invocation must wait for an approval decision.
    ApprovalRequired { approval_id: String, requested_at: i64, timeout_at: i64 },
    /// The invocation may start without approval (or after it was approved).
    Started,
    /// The approval gate settled the request.
    GateResolved { decision: ApprovalStatus },
    /// Execution finished successfully.
    Succeeded { result: Option<String> },
    /// Execution failed with the given description.
    FailedWith { error: String },
}

/// Why a transition was refused.
#[derive(Debug, Clone, Copy, PartialEq, Eq, Structural)]
pub enum TransitionError {
    /// The status is terminal and may not change any more.
    Terminal,
    /// The event does not apply to the current status.
    NotApplicable,
    /// The event carries a payload that breaks a status invariant.
    InvalidPayload,
}

/// A status from which no transition is allowed.
pub open spec fn is_terminal(s: ToolStatus) -> bool {
    s is Completed || s is Failed || s is Rejected || s is TimedOut
}

/// The invariants that every status value keeps.
pub open spec fn status_valid(s: ToolStatus) -> bool {
    match s {
        ToolStatus::PendingApproval { requested_at, timeout_at, .. } => timeout_at > requested_at,
        ToolStatus::Failed { error } => error@.len() > 0,
        _ => true,
    }
}

/// Whether the payload of an event is acceptable on its own.
pub open spec fn event_payload_ok(e: ToolEvent) -> bool {
    match e {
        ToolEvent::ApprovalRequired { requested_at, timeout_at, .. } => timeout_at > requested_at,
        ToolEvent::FailedWith { error } => error@.len() > 0,
        _ => true,
    }
}

/// The transition table: the status that `e` leads to from `s`, if the event applies there.
pub open spec fn next_status(s: ToolStatus, e: ToolEvent) -> Option<ToolStatus> {
    match (s, e) {
        (ToolStatus::Created, ToolEvent::Dispatched) => Some(ToolStatus::Pending),
        (
            ToolStatus::Pending,
            ToolEvent::ApprovalRequired { approval_id, requested_at, timeout_at },
        ) => Some(ToolStatus::PendingApproval { approval_id, requested_at, timeout_at }),
        (ToolStatus::Pending, ToolEvent::Started) => Some(ToolStatus::Running),
        (ToolStatus::Approved, ToolEvent::Started) => Some(ToolStatus::Running),
        (ToolStatus::PendingApproval { .. }, ToolEvent::GateResolved { decision }) => {
            match decision {
                ApprovalStatus::Approved => Some(ToolStatus::Running),
                ApprovalStatus::Denied { .. } => Some(ToolStatus::Rejected),
                ApprovalStatus::TimedOut => Some(ToolStatus::TimedOut),
                ApprovalStatus::Pending => None,
            }
        },
        (ToolStatus::Running, ToolEvent::Succeeded { result }) => Some(
            ToolStatus::Completed { result },
        ),
        (ToolStatus::Running, ToolEvent::FailedWith { error }) => Some(ToolStatus::Failed { error }),
        _ => None,
    }
}

/// The result that `ToolStatus::transition` owes for `s` and `e`.
pub open spec fn transition_spec(s: ToolStatus, e: ToolEvent) -> Result<ToolStatus, TransitionError> {
    if is_terminal(s) {
        Err(TransitionError::Terminal)
    } else if next_status(s, e) is None {
        Err(TransitionError::NotApplicable)
    } else if !event_payload_ok(e) {
        Err(TransitionError::InvalidPayload)
    } else {
        Ok(next_status(s, e)->0)
    }
}

/// Runs a whole sequence of events, stopping at the first refusal.
pub open spec fn run_events(s: ToolStatus, events: Seq<ToolEvent>) -> Result<ToolStatus, TransitionError>
    decreases events.len(),
{
    if events.len() == 0 {
        Ok(s)
    } else {
        match transition_spec(s, events[0]) {
            Ok(t) => run_events(t, events.drop_first()),
            Err(err) => Err(err),
        }
    }
}

impl ToolStatus {
    /// Maps a gate decision onto the status it stands for.
    pub fn from_approval_status(status: ApprovalStatus) -> (r: ToolStatus)
        ensures
            r == (match status {
                ApprovalStatus::Approved => ToolStatus::Approved,
                ApprovalStatus::Denied { .. } => ToolStatus::Rejected,
                ApprovalStatus::TimedOut => ToolStatus::TimedOut,
                ApprovalStatus::Pending => ToolStatus::Pending,
            }),
    {
        match status {
            ApprovalStatus::Approved => ToolStatus::Approved,
            ApprovalStatus::Denied { .. } => ToolStatus::Rejected,
            ApprovalStatus::TimedOut => ToolStatus::TimedOut,
            ApprovalStatus::Pending => ToolStatus::Pending,
        }
    }

    /// Whether no further transition is allowed from this status.
    pub fn is_terminal(&self) -> (r: bool)
        ensures
            r == is_terminal(*self),
    {
        match self {
            ToolStatus::Completed { .. } | ToolStatus::Failed { .. } | ToolStatus::Rejected
            | ToolStatus::TimedOut => true,
            _ => false,
        }
    }

    /// Whether the status keeps its invariants.
    pub fn is_valid(&self) -> (r: bool)
        ensures
            r == status_valid(*self),
    {
        match self {
            ToolStatus::PendingApproval { requested_at, timeout_at, .. } => *timeout_at > *requested_at,
            ToolStatus::Failed { error } => !error.as_str().is_empty(),
            _ => true,
        }
    }

    /// Applies one event; a terminal status, an event that does not apply, or a payload
    /// that breaks a status invariant is refused and nothing changes.
    pub fn transition(&self, event: ToolEvent) -> (r: Result<ToolStatus, TransitionError>)
        ensures
            r == transition_spec(*self, event),
            status_valid(*self) && r is Ok ==> status_valid(r->Ok_0),
    {
        if self.is_terminal() {
            return Err(TransitionError::Terminal);
        }
        match (self, event) {
            (ToolStatus::Created, ToolEvent::Dispatched) => Ok(ToolStatus::Pending),
            (
                ToolStatus::Pending,
                ToolEvent::ApprovalRequired { approval_id, requested_at, timeout_at },
            ) => {
                if timeout_at > requested_at {
                    Ok(ToolStatus::PendingApproval { approval_id, requested_at, timeout_at })
                } else {
                    Err(TransitionError::InvalidPayload)
                }
            },
            (ToolStatus::Pending, ToolEvent::Started) => Ok(ToolStatus::Running),
            (ToolStatus::Approved, ToolEvent::Started) => Ok(ToolStatus::Running),
            (ToolStatus::PendingApproval { .. }, ToolEvent::GateResolved { decision }) => {
                match decision {
                    ApprovalStatus::Approved => Ok(ToolStatus::Running),
                    ApprovalStatus::Denied { .. } => Ok(ToolStatus::Rejected),
                    ApprovalStatus::TimedOut => Ok(ToolStatus::TimedOut),
                    ApprovalStatus::Pending => Err(TransitionError::NotApplicable),
                }
            },
            (ToolStatus::Running, ToolEvent::Succeeded { result }) => Ok(
                ToolStatus::Completed { result },
            ),
            (ToolStatus::Running, ToolEvent::FailedWith { error }) => {
                if !error.as_str().is_empty() {
                    Ok(ToolStatus::Failed { error })
                } else {
                    Err(TransitionError::InvalidPayload)
                }
            },
            _ => Err(TransitionError::NotApplicable),
        }
    }
}

/// A terminal status refuses every event, and so does every run of events that starts
/// there (unless the run is empty).
pub proof fn lemma_terminal_is_final(s: ToolStatus, events: Seq<ToolEvent>)
    requires
        is_terminal(s),
    ensures
        forall|e: ToolEvent| #[trigger] transition_spec(s, e) == Err::<ToolStatus, TransitionError>(TransitionError::Terminal),
        events.len() > 0 ==> run_events(s, events) == Err::<ToolStatus, TransitionError>(TransitionError::Terminal),
{
}

} // verus!
