use vstd::prelude::*;
use crate::status::{ToolEvent, ToolStatus, TransitionError, is_terminal, status_valid, transition_spec};

verus! {

#[verifier::external_type_specification]
#[verifier::external_body]
pub struct ExJsonValue(serde_json::Value);

/// Relies on serde_json's derived `Clone` for `Value`: the copy is the same JSON value.
pub assume_specification[ <serde_json::Value as Clone>::clone ](v: &serde_json::Value) -> (r: serde_json::Value)
    ensures
        r == *v,
;

/// Opaque classification of what a tool does.
#[derive(Debug, Clone, Copy, PartialEq, Eq, Structural)]
pub enum ActionType {
    Read,
    Write,
    Execute,
}

/// Links a tool call to its approval request.
#[derive(Debug, Clone)]
pub struct ToolCallMetadata {
    pub approval_id: String,
    pub tool_call_id: String,
}

/// The kind of one conversation entry, with what that kind carries.
#[derive(Debug, Clone)]
pub enum NormalizedEntryType {
    ToolUse {
        tool_name: String,
        tool_call_id: String,
        status: ToolStatus,
        action_type: Option<ActionType>,
    },
    Message { content: String },
    ErrorMessage { error_type: String },
}

/// One unit of conversation, independent of which agent produced it.
#[derive(Debug, Clone)]
pub struct NormalizedEntry {
    /// Creation time as an ISO-8601 string, when known.
    pub timestamp: Option<String>,
    pub entry_type: NormalizedEntryType,
    pub content: String,
    /// Side-channel data that this library carries and never reads.
    pub metadata: Option<serde_json::Value>,
}

/// Why a tool entry could not be advanced.
#[derive(Debug, Clone, Copy, PartialEq, Eq, Structural)]
pub enum EntryUpdateError {
    /// The entry is not a tool use, so it has no status.
    NotToolUse,
    /// The status machine refused the event.
    Transition(TransitionError),
}

/// `e` with its tool status replaced by `status`; `None` when `e` is not a tool use, its status
/// is terminal, or `status` breaks a status invariant.
pub open spec fn with_status_spec(e: NormalizedEntry, status: ToolStatus) -> Option<NormalizedEntry> {
    match e.entry_type {
        NormalizedEntryType::ToolUse { tool_name, tool_call_id, action_type, status: current } => if is_terminal(current) || !status_valid(status) {
            None
        } else {
            Some(
            NormalizedEntry {
                timestamp: e.timestamp,
                entry_type: NormalizedEntryType::ToolUse { tool_name, tool_call_id, status, action_type },
                content: e.content,
                metadata: e.metadata,
            },
        )},
        _ => None,
    }
}

/// The tool call id of a tool-use entry.
pub open spec fn tool_call_id_of(e: NormalizedEntry) -> Option<Seq<char>> {
    match e.entry_type {
        NormalizedEntryType::ToolUse { tool_call_id, .. } => Some(tool_call_id@),
        _ => None,
    }
}

/// What `advance` owes for entry `e` and event `ev`.
pub open spec fn advance_spec(e: NormalizedEntry, ev: ToolEvent) -> Result<NormalizedEntry, EntryUpdateError> {
    match e.entry_type {
        NormalizedEntryType::ToolUse { status, .. } => match transition_spec(status, ev) {
            Ok(next) => Ok(with_status_spec(e, next)->0),
            Err(err) => Err(EntryUpdateError::Transition(err)),
        },
        _ => Err(EntryUpdateError::NotToolUse),
    }
}

fn copy_opt_string(s: &Option<String>) -> (r: Option<String>)
    ensures
        r == *s,
{
    match s {
        Some(t) => Some(t.clone()),
        None => None,
    }
}

fn copy_opt_value(v: &Option<serde_json::Value>) -> (r: Option<serde_json::Value>)
    ensures
        r == *v,
{
    match v {
        Some(x) => Some(x.clone()),
        None => None,
    }
}

impl NormalizedEntry {
    /// A tool-use entry in the `Created` state.
    pub fn tool_use(
        tool_name: String,
        tool_call_id: String,
        action_type: Option<ActionType>,
        content: String,
        timestamp: Option<String>,
    ) -> (r: NormalizedEntry)
        ensures
            r == (NormalizedEntry {
                timestamp,
                entry_type: NormalizedEntryType::ToolUse {
                    tool_name,
                    tool_call_id,
                    status: ToolStatus::Created,
                    action_type,
                },
                content,
                metadata: None,
            }),
    {
        NormalizedEntry {
            timestamp,
            entry_type: NormalizedEntryType::ToolUse {
                tool_name,
                tool_call_id,
                status: ToolStatus::Created,
                action_type,
            },
            content,
            metadata: None,
        }
    }

    /// The same entry with a new tool status; `None` when the entry is not a tool use, when its
    /// status is terminal and so may not change any more, or when `status` breaks a status
    /// invariant (an empty failure text, a deadline not after the request time).
    pub fn with_tool_status(self, status: ToolStatus) -> (r: Option<Self>)
        ensures
            r == with_status_spec(self, status),
    {
        match self.entry_type {
            NormalizedEntryType::ToolUse { tool_name, tool_call_id, action_type, status: current } => if current.is_terminal() || !status.is_valid() {
                None
            } else {
                Some(
                NormalizedEntry {
                    timestamp: self.timestamp,
                    entry_type: NormalizedEntryType::ToolUse {
                        tool_name,
                        tool_call_id,
                        status,
                        action_type,
                    },
                    content: self.content,
                    metadata: self.metadata,
                },
            )},
            _ => None,
        }
    }

    /// The current status of a tool-use entry.
    pub fn tool_status(&self) -> (r: Option<&ToolStatus>)
        ensures
            r == (match self.entry_type {
                NormalizedEntryType::ToolUse { status, .. } => Some(&status),
                _ => None,
            }),
    {
        match &self.entry_type {
            NormalizedEntryType::ToolUse { status, .. } => Some(status),
            _ => None,
        }
    }

    /// The tool call id of a tool-use entry.
    pub fn tool_call_id(&self) -> (r: Option<&String>)
        ensures
            r matches Some(id) ==> tool_call_id_of(*self) == Some(id@),
            r is None <==> tool_call_id_of(*self) is None,
    {
        match &self.entry_type {
            NormalizedEntryType::ToolUse { tool_call_id, .. } => Some(tool_call_id),
            _ => None,
        }
    }

    /// A new entry value whose status has taken `event`; `self` is left as it was.
    pub fn advance(&self, event: ToolEvent) -> (r: Result<NormalizedEntry, EntryUpdateError>)
        ensures
            r == advance_spec(*self, event),
    {
        match &self.entry_type {
            NormalizedEntryType::ToolUse { tool_name, tool_call_id, status, action_type } => {
                match status.transition(event) {
                    Ok(next) => Ok(
                        NormalizedEntry {
                            timestamp: copy_opt_string(&self.timestamp),
                            entry_type: NormalizedEntryType::ToolUse {
                                tool_name: tool_name.clone(),
                                tool_call_id: tool_call_id.clone(),
                                status: next,
                                action_type: *action_type,
                            },
                            content: self.content.clone(),
                            metadata: copy_opt_value(&self.metadata),
                        },
                    ),
                    Err(err) => Err(EntryUpdateError::Transition(err)),
                }
            },
            _ => Err(EntryUpdateError::NotToolUse),
        }
    }

    /// A field-by-field copy.
    pub fn duplicate(&self) -> (r: NormalizedEntry)
        ensures
            r == *self,
    {
        let entry_type = match &self.entry_type {
            NormalizedEntryType::ToolUse { tool_name, tool_call_id, status, action_type } => {
                NormalizedEntryType::ToolUse {
                    tool_name: tool_name.clone(),
                    tool_call_id: tool_call_id.clone(),
                    status: copy_tool_status(status),
                    action_type: *action_type,
                }
            },
            NormalizedEntryType::Message { content } => NormalizedEntryType::Message {
                content: content.clone(),
            },
            NormalizedEntryType::ErrorMessage { error_type } => NormalizedEntryType::ErrorMessage {
                error_type: error_type.clone(),
            },
        };
        NormalizedEntry {
            timestamp: copy_opt_string(&self.timestamp),
            entry_type,
            content: self.content.clone(),
            metadata: copy_opt_value(&self.metadata),
        }
    }
}

/// A tool entry whose status is terminal takes neither a new status nor an event.
pub proof fn lemma_terminal_entry_is_final(e: NormalizedEntry, status: ToolStatus, ev: ToolEvent)
    requires
        e.entry_type matches NormalizedEntryType::ToolUse { status: current, .. } && is_terminal(current),
    ensures
        with_status_spec(e, status) is None,
        advance_spec(e, ev) is Err,
{
}

/// A field-by-field copy of a status.
pub fn copy_tool_status(s: &ToolStatus) -> (r: ToolStatus)
    ensures
        r == *s,
{
    match s {
        ToolStatus::Created => ToolStatus::Created,
        ToolStatus::Pending => ToolStatus::Pending,
        ToolStatus::Running => ToolStatus::Running,
        ToolStatus::Completed { result } => ToolStatus::Completed { result: copy_opt_string(result) },
        ToolStatus::Failed { error } => ToolStatus::Failed { error: error.clone() },
        ToolStatus::PendingApproval { approval_id, requested_at, timeout_at } => {
            ToolStatus::PendingApproval {
                approval_id: approval_id.clone(),
                requested_at: *requested_at,
                timeout_at: *timeout_at,
            }
        },
        ToolStatus::Approved => ToolStatus::Approved,
        ToolStatus::Rejected => ToolStatus::Rejected,
        ToolStatus::TimedOut => ToolStatus::TimedOut,
    }
}

} // verus!
