use vstd::prelude::*;
use crate::entry::{
    EntryUpdateError, NormalizedEntry, advance_spec, tool_call_id_of,
};
use crate::patch::ConversationPatch;
use crate::status::ToolEvent;

verus! {

/// Why a session refused a change.
#[derive(Debug, Clone, Copy, PartialEq, Eq, Structural)]
pub enum SessionError {
    /// A tool-use entry with this tool call id is already in the session.
    DuplicateToolCall,
    /// No tool-use entry carries this tool call id.
    UnknownToolCall,
    /// The entry refused the event.
    Update(EntryUpdateError),
}

/// Tool call ids are unique among the tool-use entries of `s`.
pub open spec fn ids_unique(s: Seq<NormalizedEntry>) -> bool {
    forall|i: int, j: int|
        0 <= i < s.len() && 0 <= j < s.len() && i != j && (#[trigger] tool_call_id_of(s[i])) is Some
            ==> tool_call_id_of(s[i]) != #[trigger] tool_call_id_of(s[j])
}

/// `s` after the entry at `i` takes `ev`, or `s` itself when the entry refuses it.
pub open spec fn advance_at(s: Seq<NormalizedEntry>, i: int, ev: ToolEvent) -> Seq<NormalizedEntry> {
    match advance_spec(s[i], ev) {
        Ok(e) => s.update(i, e),
        Err(_) => s,
    }
}

/// The emitting side of one conversation: its own view of the entry sequence, which every
/// emitted patch keeps in step with the receiver's.
pub struct ToolSession {
    entries: Vec<NormalizedEntry>,
}

impl ToolSession {
    pub closed spec fn entries(&self) -> Seq<NormalizedEntry> {
        self.entries@
    }

    pub closed spec fn wf(&self) -> bool {
        ids_unique(self.entries@)
    }

    pub fn new() -> (r: ToolSession)
        ensures
            r.wf(),
            r.entries().len() == 0,
    {
        ToolSession { entries: Vec::new() }
    }

    /// Number of entries so far.
    pub fn len(&self) -> (r: usize)
        ensures
            r == self.entries().len(),
    {
        self.entries.len()
    }

    /// The entry at position `i`.
    pub fn get(&self, i: usize) -> (r: Option<&NormalizedEntry>)
        ensures
            i < self.entries().len() ==> r == Some(&self.entries()[i as int]),
            i >= self.entries().len() ==> r is None,
    {
        if i < self.entries.len() {
            Some(&self.entries[i])
        } else {
            None
        }
    }

    /// The position of the tool-use entry with this tool call id.
    pub fn find_tool_call(&self, tool_call_id: &String) -> (r: Option<usize>)
        ensures
            r matches Some(i) ==> i < self.entries().len() && tool_call_id_of(self.entries()[i as int])
                == Some(tool_call_id@),
            r is None ==> forall|j: int|
                0 <= j < self.entries().len() ==> #[trigger] tool_call_id_of(self.entries()[j]) != Some(
                    tool_call_id@,
                ),
    {
        let n = self.entries.len();
        let mut i: usize = 0;
        while i < n
            invariant
                0 <= i <= n,
                n == self.entries@.len(),
                forall|j: int|
                    0 <= j < i ==> #[trigger] tool_call_id_of(self.entries@[j]) != Some(tool_call_id@),
            decreases n - i,
        {
            match self.entries[i].tool_call_id() {
                Some(id) => {
                    if id.eq(tool_call_id) {
                        return Some(i);
                    }
                },
                None => {},
            }
            i += 1;
        }
        None
    }

    /// Appends an entry and returns the `Add` patch that announces it. A tool-use entry whose
    /// tool call id is already present is refused and nothing changes.
    pub fn push_entry(&mut self, entry: NormalizedEntry) -> (r: Result<ConversationPatch, SessionError>)
        requires
            old(self).wf(),
            old(self).entries().len() < usize::MAX,
        ensures
            final(self).wf(),
            (exists|j: int|
                0 <= j < old(self).entries().len() && tool_call_id_of(entry) is Some
                    && #[trigger] tool_call_id_of(old(self).entries()[j]) == tool_call_id_of(entry))
                ==> r == Err::<ConversationPatch, SessionError>(SessionError::DuplicateToolCall)
                && final(self).entries() == old(self).entries(),
            r is Ok ==> final(self).entries() == old(self).entries().push(entry) && r == Ok::<
                ConversationPatch,
                SessionError,
            >(ConversationPatch::Add { index: old(self).entries().len() as usize, entry }),
            r is Err ==> r == Err::<ConversationPatch, SessionError>(SessionError::DuplicateToolCall),
            (forall|j: int|
                0 <= j < old(self).entries().len() ==> tool_call_id_of(entry) is None
                    || #[trigger] tool_call_id_of(old(self).entries()[j]) != tool_call_id_of(entry))
                ==> r is Ok,
    {
        match entry.tool_call_id() {
            Some(id) => {
                match self.find_tool_call(id) {
                    Some(_) => {
                        return Err(SessionError::DuplicateToolCall);
                    },
                    None => {},
                }
            },
            None => {},
        }
        let index = self.entries.len();
        let copy = entry.duplicate();
        self.entries.push(entry);
        proof {
            let s = self.entries@;
            assert forall|i: int, j: int|
                0 <= i < s.len() && 0 <= j < s.len() && i != j && (#[trigger] tool_call_id_of(s[i])) is Some
                    implies tool_call_id_of(s[i]) != #[trigger] tool_call_id_of(s[j]) by {
                if i < index && j < index {
                    assert(s[i] == old(self).entries@[i]);
                    assert(s[j] == old(self).entries@[j]);
                } else if i < index {
                    assert(s[i] == old(self).entries@[i]);
                } else {
                    assert(s[j] == old(self).entries@[j]);
                }
            }
        }
        Ok(ConversationPatch::Add { index, entry: copy })
    }

    /// Feeds `event` to the tool call with this id and returns the `Replace` patch that carries
    /// the new entry value, at the position the entry has held since it was added. Nothing
    /// changes when the id is unknown or the entry refuses the event.
    pub fn advance_tool_call(&mut self, tool_call_id: &String, event: ToolEvent) -> (r: Result<
        ConversationPatch,
        SessionError,
    >)
        requires
            old(self).wf(),
        ensures
            final(self).wf(),
            (forall|j: int|
                0 <= j < old(self).entries().len() ==> #[trigger] tool_call_id_of(old(self).entries()[j])
                    != Some(tool_call_id@)) ==> r == Err::<ConversationPatch, SessionError>(
                SessionError::UnknownToolCall,
            ) && final(self).entries() == old(self).entries(),
            forall|i: int|
                0 <= i < old(self).entries().len() && #[trigger] tool_call_id_of(old(self).entries()[i])
                    == Some(tool_call_id@) ==> {
                    &&& final(self).entries() == advance_at(old(self).entries(), i, event)
                    &&& match advance_spec(old(self).entries()[i], event) {
                        Ok(e) => r == Ok::<ConversationPatch, SessionError>(
                            ConversationPatch::Replace { index: i as usize, entry: e },
                        ),
                        Err(err) => r == Err::<ConversationPatch, SessionError>(SessionError::Update(err)),
                    }
                },
    {
        let i = match self.find_tool_call(tool_call_id) {
            Some(i) => i,
            None => {
                return Err(SessionError::UnknownToolCall);
            },
        };
        let next = match self.entries[i].advance(event) {
            Ok(e) => e,
            Err(err) => {
                return Err(SessionError::Update(err));
            },
        };
        let copy = next.duplicate();
        let _previous = self.entries.remove(i);
        self.entries.insert(i, next);
        proof {
            let s = self.entries@;
            let o = old(self).entries@;
            assert(s =~= o.update(i as int, copy));
            assert(tool_call_id_of(copy) == tool_call_id_of(o[i as int]));
            assert forall|a: int, b: int|
                0 <= a < s.len() && 0 <= b < s.len() && a != b && (#[trigger] tool_call_id_of(s[a])) is Some
                    implies tool_call_id_of(s[a]) != #[trigger] tool_call_id_of(s[b]) by {
                assert(tool_call_id_of(s[a]) == tool_call_id_of(o[a]));
                assert(tool_call_id_of(s[b]) == tool_call_id_of(o[b]));
            }
        }
        Ok(ConversationPatch::Replace { index: i, entry: copy })
    }
}

/// Events fed to two different tool calls do not interfere: each leaves the other's entry as it
/// was, and the two orders end in the same sequence.
pub proof fn lemma_tool_calls_independent(
    s: Seq<NormalizedEntry>,
    i: int,
    j: int,
    e1: ToolEvent,
    e2: ToolEvent,
)
    requires
        0 <= i < s.len(),
        0 <= j < s.len(),
        i != j,
    ensures
        advance_at(s, i, e1)[j] == s[j],
        advance_at(advance_at(s, i, e1), j, e2) == advance_at(advance_at(s, j, e2), i, e1),
{
    let a = advance_at(s, i, e1);
    let b = advance_at(s, j, e2);
    assert(a[j] == s[j]);
    assert(b[i] == s[i]);
    assert(advance_at(a, j, e2) =~= advance_at(b, i, e1));
}

} // verus!
