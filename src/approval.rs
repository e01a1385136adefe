use vstd::prelude::*;
use crate::status::{ApprovalStatus, ToolEvent};
use crate::patch::{decimal, push_decimal};

verus! {

/// Why the approval subsystem could not serve a request; never the same thing as a denial.
#[derive(Debug, Clone)]
pub enum ExecutorApprovalError {
    /// A failure reported by an approval backend.
    Generic(String),
    /// The tool name or the tool call id was empty.
    MalformedInput,
    /// The request time plus the configured timeout does not fit the clock's range.
    DeadlineOverflow,
    /// No request was ever made under this id.
    UnknownApproval { approval_id: u64 },
}

/// A request and, once settled, its outcome.
#[derive(Debug)]
pub struct ApprovalRecord {
    pub approval_id: u64,
    pub tool_name: String,
    pub tool_call_id: String,
    pub requested_at: i64,
    pub timeout_at: i64,
    /// `None` while the request is still open; the first decision to arrive is kept here.
    pub outcome: Option<ApprovalStatus>,
}

/// What a caller learns when a request is registered.
#[derive(Debug, Clone, Copy, PartialEq, Eq, Structural)]
pub struct ApprovalTicket {
    pub approval_id: u64,
    pub requested_at: i64,
    pub timeout_at: i64,
}

/// What `serde_json::Value::is_null` says of `v`.
pub uninterp spec fn json_is_null(v: serde_json::Value) -> bool;

/// Relies on `serde_json::Value::is_null`: whether the value is JSON `null`, which depends on
/// the value alone.
#[verifier::external_body]
fn value_is_null(v: &serde_json::Value) -> (r: bool)
    ensures
        r == json_is_null(*v),
{
    v.is_null()
}

impl ApprovalTicket {
    /// The decimal text of the approval id, as tool statuses carry it.
    pub fn approval_id_text(&self) -> (r: String)
        ensures
            r@ == decimal(self.approval_id as nat),
    {
        let mut s = String::new();
        push_decimal(&mut s, self.approval_id);
        proof {
            assert(s@ =~= decimal(self.approval_id as nat));
        }
        s
    }

    /// The event that moves a pending tool call into the approval wait for this request.
    pub fn approval_event(&self) -> (r: ToolEvent)
        ensures
            r matches ToolEvent::ApprovalRequired { approval_id, requested_at, timeout_at }
                && approval_id@ == decimal(self.approval_id as nat) && requested_at == self.requested_at
                && timeout_at == self.timeout_at,
    {
        ToolEvent::ApprovalRequired {
            approval_id: self.approval_id_text(),
            requested_at: self.requested_at,
            timeout_at: self.timeout_at,
        }
    }
}

/// Table of approval requests. Each id is settled at most once: by an explicit decision or by
/// its deadline, whichever is seen first.
pub struct ApprovalGate {
    records: Vec<ApprovalRecord>,
    timeout_ms: i64,
}

/// A record whose deadline has passed at `now` while it is still open.
pub open spec fn is_due(rec: ApprovalRecord, now: int) -> bool {
    rec.outcome is None && rec.timeout_at <= now
}

/// `rec` with its outcome set to `st`.
pub open spec fn settled(rec: ApprovalRecord, st: ApprovalStatus) -> ApprovalRecord {
    ApprovalRecord {
        approval_id: rec.approval_id,
        tool_name: rec.tool_name,
        tool_call_id: rec.tool_call_id,
        requested_at: rec.requested_at,
        timeout_at: rec.timeout_at,
        outcome: Some(st),
    }
}

/// The table and the answer after `resolve(id, d)` arrives at time `now`.
pub open spec fn resolve_spec(recs: Seq<ApprovalRecord>, id: u64, d: ApprovalStatus, now: int) -> (
    Seq<ApprovalRecord>,
    Result<ApprovalStatus, ExecutorApprovalError>,
) {
    if id >= recs.len() {
        (recs, Err(ExecutorApprovalError::UnknownApproval { approval_id: id }))
    } else if recs[id as int].outcome is Some {
        (recs, Ok(recs[id as int].outcome->0))
    } else if now >= recs[id as int].timeout_at {
        (recs.update(id as int, settled(recs[id as int], ApprovalStatus::TimedOut)), Ok(ApprovalStatus::TimedOut))
    } else if d is Pending {
        (recs, Ok(ApprovalStatus::Pending))
    } else {
        (recs.update(id as int, settled(recs[id as int], d)), Ok(d))
    }
}

/// The table after every open request whose deadline has passed at `now` is timed out.
pub open spec fn expire_spec(recs: Seq<ApprovalRecord>, now: int) -> Seq<ApprovalRecord> {
    Seq::new(
        recs.len(),
        |i: int|
            if is_due(recs[i], now) {
                settled(recs[i], ApprovalStatus::TimedOut)
            } else {
                recs[i]
            },
    )
}

/// Ids among the first `n` records that are due at `now`, in order.
pub open spec fn due_ids(recs: Seq<ApprovalRecord>, now: int, n: nat) -> Seq<u64>
    decreases n,
{
    if n == 0 {
        Seq::empty()
    } else {
        let prev = due_ids(recs, now, (n - 1) as nat);
        if n - 1 < recs.len() && is_due(recs[n - 1], now) {
            prev.push((n - 1) as u64)
        } else {
            prev
        }
    }
}

/// Which ids `due_ids` reports: exactly those below `n` whose record is due.
pub proof fn lemma_due_ids_members(recs: Seq<ApprovalRecord>, now: int, n: nat, id: u64)
    requires
        n <= recs.len() <= u64::MAX,
    ensures
        due_ids(recs, now, n).contains(id) <==> (id < n && is_due(recs[id as int], now)),
    decreases n,
{
    if n > 0 {
        lemma_due_ids_members(recs, now, (n - 1) as nat, id);
        let prev = due_ids(recs, now, (n - 1) as nat);
        if is_due(recs[n - 1], now) {
            assert(prev.push((n - 1) as u64).contains(id) <==> (prev.contains(id) || id == n - 1)) by {
                if prev.push((n - 1) as u64).contains(id) {
                    let k = choose|k: int| 0 <= k < prev.len() + 1 && #[trigger] prev.push((n - 1) as u64)[k] == id;
                    if k < prev.len() {
                        assert(prev[k] == id);
                    }
                }
                if prev.contains(id) {
                    let k = choose|k: int| 0 <= k < prev.len() && #[trigger] prev[k] == id;
                    assert(prev.push((n - 1) as u64)[k] == id);
                }
                if id == n - 1 {
                    assert(prev.push((n - 1) as u64)[prev.len() as int] == id);
                }
            }
        }
    }
}

/// Once a request has been settled by a decision, any later decision is a no-op: the table is
/// unchanged and the caller is told the first decision.
pub proof fn lemma_first_decision_wins(
    recs: Seq<ApprovalRecord>,
    id: u64,
    d1: ApprovalStatus,
    d2: ApprovalStatus,
    t1: int,
    t2: int,
)
    requires
        resolve_spec(recs, id, d1, t1).1 is Ok,
        !(resolve_spec(recs, id, d1, t1).1->Ok_0 is Pending),
    ensures
        resolve_spec(resolve_spec(recs, id, d1, t1).0, id, d2, t2) == resolve_spec(recs, id, d1, t1),
{
}

/// A decision that reaches an open request before its deadline is the one recorded, and every
/// later call for that id, with any other decision at any time, is told that same decision and
/// changes nothing.
pub proof fn lemma_first_writer_wins(
    recs: Seq<ApprovalRecord>,
    id: u64,
    d1: ApprovalStatus,
    d2: ApprovalStatus,
    t1: int,
    t2: int,
)
    requires
        id < recs.len(),
        recs[id as int].outcome is None,
        t1 < recs[id as int].timeout_at,
        !(d1 is Pending),
    ensures
        resolve_spec(recs, id, d1, t1).1 == Ok::<ApprovalStatus, ExecutorApprovalError>(d1),
        resolve_spec(recs, id, d1, t1).0[id as int].outcome == Some(d1),
        resolve_spec(resolve_spec(recs, id, d1, t1).0, id, d2, t2) == resolve_spec(recs, id, d1, t1),
{
}

/// A request that no decision reaches is timed out by a sweep at or after its deadline and by
/// none before it; the sweep that times it out reports it, and no later sweep reports it again.
pub proof fn lemma_timeout_exactly_once(recs: Seq<ApprovalRecord>, id: u64, t1: int, t2: int)
    requires
        recs.len() <= u64::MAX,
        id < recs.len(),
        recs[id as int].outcome is None,
    ensures
        t1 < recs[id as int].timeout_at ==> {
            &&& expire_spec(recs, t1)[id as int] == recs[id as int]
            &&& !due_ids(recs, t1, recs.len()).contains(id)
        },
        t1 >= recs[id as int].timeout_at ==> {
            &&& expire_spec(recs, t1)[id as int].outcome == Some(ApprovalStatus::TimedOut)
            &&& due_ids(recs, t1, recs.len()).contains(id)
            &&& !due_ids(expire_spec(recs, t1), t2, recs.len()).contains(id)
            &&& expire_spec(expire_spec(recs, t1), t2)[id as int] == expire_spec(recs, t1)[id as int]
        },
{
    lemma_due_ids_members(recs, t1, recs.len(), id);
    lemma_due_ids_members(expire_spec(recs, t1), t2, recs.len(), id);
}

/// What registering a request for `tool_name` and `tool_call_id` at `now` owes: a malformed
/// request or a deadline out of range is refused and changes nothing; otherwise a new open record
/// is appended under the next id and its ticket returned.
pub open spec fn request_outcome(
    pre: ApprovalGate,
    tool_name: Seq<char>,
    tool_call_id: Seq<char>,
    now: i64,
    r: Result<ApprovalTicket, ExecutorApprovalError>,
    post: ApprovalGate,
) -> bool {
    let ok_input = tool_name.len() > 0 && tool_call_id.len() > 0;
    let id = pre.records().len();
    &&& !ok_input ==> r == Err::<ApprovalTicket, ExecutorApprovalError>(ExecutorApprovalError::MalformedInput)
    &&& (ok_input && now + pre.timeout_ms() > i64::MAX) ==> r == Err::<ApprovalTicket, ExecutorApprovalError>(
        ExecutorApprovalError::DeadlineOverflow,
    )
    &&& r is Err ==> post.records() == pre.records()
    &&& (ok_input && now + pre.timeout_ms() <= i64::MAX) ==> {
        &&& r == Ok::<ApprovalTicket, ExecutorApprovalError>(
            ApprovalTicket {
                approval_id: id as u64,
                requested_at: now,
                timeout_at: (now + pre.timeout_ms()) as i64,
            },
        )
        &&& post.records().len() == id + 1
        &&& post.records().subrange(0, id as int) == pre.records()
        &&& post.records()[id as int].tool_name@ == tool_name
        &&& post.records()[id as int].tool_call_id@ == tool_call_id
        &&& post.records()[id as int].approval_id == id
        &&& post.records()[id as int].requested_at == now
        &&& post.records()[id as int].timeout_at == now + pre.timeout_ms()
        &&& post.records()[id as int].outcome is None
    }
}

/// A copy of a decision, field by field.
pub fn copy_status(s: &ApprovalStatus) -> (r: ApprovalStatus)
    ensures
        r == *s,
{
    match s {
        ApprovalStatus::Pending => ApprovalStatus::Pending,
        ApprovalStatus::Approved => ApprovalStatus::Approved,
        ApprovalStatus::Denied { reason } => {
            let reason = match reason {
                Some(text) => Some(text.clone()),
                None => None,
            };
            ApprovalStatus::Denied { reason }
        },
        ApprovalStatus::TimedOut => ApprovalStatus::TimedOut,
    }
}

impl ApprovalGate {
    /// The requests made so far; a request's id is its position.
    pub closed spec fn records(&self) -> Seq<ApprovalRecord> {
        self.records@
    }

    /// The configured time between a request and its deadline.
    pub closed spec fn timeout_ms(&self) -> int {
        self.timeout_ms as int
    }

    pub closed spec fn wf(&self) -> bool {
        &&& self.timeout_ms > 0
        &&& self.records@.len() <= u64::MAX
        &&& forall|i: int|
            0 <= i < self.records@.len() ==> {
                &&& (#[trigger] self.records@[i]).approval_id == i
                &&& self.records@[i].timeout_at > self.records@[i].requested_at
                &&& !(self.records@[i].outcome matches Some(ApprovalStatus::Pending))
            }
    }

    /// An empty gate whose requests time out `timeout_ms` milliseconds after they are made.
    pub fn new(timeout_ms: i64) -> (r: ApprovalGate)
        requires
            timeout_ms > 0,
        ensures
            r.wf(),
            r.records().len() == 0,
            r.timeout_ms() == timeout_ms,
    {
        ApprovalGate { records: Vec::new(), timeout_ms }
    }

    /// Number of requests made so far.
    pub fn len(&self) -> (r: usize)
        ensures
            r == self.records().len(),
    {
        self.records.len()
    }

    /// Registers a request made at `now`; its deadline is `now` plus the configured timeout.
    pub fn request_approval(&mut self, tool_name: &str, tool_call_id: &str, now: i64) -> (r: Result<
        ApprovalTicket,
        ExecutorApprovalError,
    >)
        requires
            old(self).wf(),
            old(self).records().len() < u64::MAX,
        ensures
            final(self).wf(),
            final(self).timeout_ms() == old(self).timeout_ms(),
            request_outcome(*old(self), tool_name@, tool_call_id@, now, r, *final(self)),
    {
        if tool_name.is_empty() || tool_call_id.is_empty() {
            return Err(ExecutorApprovalError::MalformedInput);
        }
        if now > i64::MAX - self.timeout_ms {
            return Err(ExecutorApprovalError::DeadlineOverflow);
        }
        let id = self.records.len() as u64;
        let timeout_at = now + self.timeout_ms;
        let rec = ApprovalRecord {
            approval_id: id,
            tool_name: tool_name.to_owned(),
            tool_call_id: tool_call_id.to_owned(),
            requested_at: now,
            timeout_at,
            outcome: None,
        };
        self.records.push(rec);
        proof {
            assert(self.records@.subrange(0, id as int) =~= old(self).records@);
        }
        Ok(ApprovalTicket { approval_id: id, requested_at: now, timeout_at })
    }

    /// Registers a request for a tool call with its input; a `null` input is malformed and is
    /// refused without touching the table.
    pub fn request_tool_approval(
        &mut self,
        tool_name: &str,
        tool_input: &serde_json::Value,
        tool_call_id: &str,
        now: i64,
    ) -> (r: Result<ApprovalTicket, ExecutorApprovalError>)
        requires
            old(self).wf(),
            old(self).records().len() < u64::MAX,
        ensures
            final(self).wf(),
            final(self).timeout_ms() == old(self).timeout_ms(),
            json_is_null(*tool_input) ==> r == Err::<ApprovalTicket, ExecutorApprovalError>(
                ExecutorApprovalError::MalformedInput,
            ) && final(self).records() == old(self).records(),
            !json_is_null(*tool_input) ==> request_outcome(*old(self), tool_name@, tool_call_id@, now, r, *final(self)),
    {
        if value_is_null(tool_input) {
            return Err(ExecutorApprovalError::MalformedInput);
        }
        self.request_approval(tool_name, tool_call_id, now)
    }

    fn settle(&mut self, i: usize, st: ApprovalStatus)
        requires
            i < old(self).records@.len(),
        ensures
            final(self).records@ == old(self).records@.update(i as int, settled(old(self).records@[i as int], st)),
            final(self).timeout_ms == old(self).timeout_ms,
    {
        let mut rec = self.records.remove(i);
        rec.outcome = Some(st);
        self.records.insert(i, rec);
        proof {
            assert(self.records@ =~= old(self).records@.update(i as int, settled(old(self).records@[i as int], st)));
        }
    }

    /// Delivers a decision at time `now`. The first settlement of an id wins: once settled, later
    /// calls change nothing and return the settled decision. A decision that arrives at or after
    /// the deadline of an open request loses to the timeout. `Pending` settles nothing.
    pub fn resolve(&mut self, approval_id: u64, decision: ApprovalStatus, now: i64) -> (r: Result<
        ApprovalStatus,
        ExecutorApprovalError,
    >)
        requires
            old(self).wf(),
        ensures
            final(self).wf(),
            final(self).timeout_ms() == old(self).timeout_ms(),
            (final(self).records(), r) == resolve_spec(old(self).records(), approval_id, decision, now as int),
    {
        let n = self.records.len();
        if approval_id as usize >= n || approval_id >= n as u64 {
            return Err(ExecutorApprovalError::UnknownApproval { approval_id });
        }
        let i = approval_id as usize;
        match &self.records[i].outcome {
            Some(prior) => {
                return Ok(copy_status(prior));
            },
            None => {},
        }
        if now >= self.records[i].timeout_at {
            self.settle(i, ApprovalStatus::TimedOut);
            return Ok(ApprovalStatus::TimedOut);
        }
        match decision {
            ApprovalStatus::Pending => Ok(ApprovalStatus::Pending),
            _ => {
                let answer = copy_status(&decision);
                self.settle(i, decision);
                Ok(answer)
            },
        }
    }

    /// What a waiter sees at time `now`: the settled decision, `TimedOut` once the deadline has
    /// passed (which settles the request), or `Pending`.
    pub fn poll(&mut self, approval_id: u64, now: i64) -> (r: Result<ApprovalStatus, ExecutorApprovalError>)
        requires
            old(self).wf(),
        ensures
            final(self).wf(),
            final(self).timeout_ms() == old(self).timeout_ms(),
            (final(self).records(), r) == resolve_spec(old(self).records(), approval_id, ApprovalStatus::Pending, now as int),
    {
        self.resolve(approval_id, ApprovalStatus::Pending, now)
    }

    /// Times out every open request whose deadline is at or before `now`, and returns their ids
    /// in order. A request is reported by at most one call.
    pub fn expire(&mut self, now: i64) -> (r: Vec<u64>)
        requires
            old(self).wf(),
        ensures
            final(self).wf(),
            final(self).timeout_ms() == old(self).timeout_ms(),
            final(self).records() == expire_spec(old(self).records(), now as int),
            r@ == due_ids(old(self).records(), now as int, old(self).records().len()),
    {
        let ghost orig = self.records@;
        let mut out: Vec<u64> = Vec::new();
        let n = self.records.len();
        let mut i: usize = 0;
        while i < n
            invariant
                0 <= i <= n,
                n == orig.len(),
                self.records@.len() == n,
                self.timeout_ms == old(self).timeout_ms,
                orig == old(self).records@,
                old(self).wf(),
                forall|k: int| 0 <= k < i ==> #[trigger] self.records@[k] == expire_spec(orig, now as int)[k],
                forall|k: int| i <= k < n ==> #[trigger] self.records@[k] == orig[k],
                out@ == due_ids(orig, now as int, i as nat),
            decreases n - i,
        {
            let due = match &self.records[i].outcome {
                None => self.records[i].timeout_at <= now,
                Some(_) => false,
            };
            if due {
                self.settle(i, ApprovalStatus::TimedOut);
                out.push(i as u64);
            }
            i += 1;
        }
        proof {
            assert(self.records@ =~= expire_spec(orig, now as int));
        }
        out
    }

    /// The settled decision of a request, `Pending` while it is open, `None` for an unknown id.
    pub fn status(&self, approval_id: u64) -> (r: Option<ApprovalStatus>)
        requires
            self.wf(),
        ensures
            approval_id >= self.records().len() ==> r is None,
            approval_id < self.records().len() ==> r == Some(
                match self.records()[approval_id as int].outcome {
                    Some(st) => st,
                    None => ApprovalStatus::Pending,
                },
            ),
    {
        if approval_id >= self.records.len() as u64 {
            return None;
        }
        match &self.records[approval_id as usize].outcome {
            Some(st) => Some(copy_status(st)),
            None => Some(ApprovalStatus::Pending),
        }
    }
}

} // verus!
