use vstd::prelude::*;
use json_patch::jsonptr::{ParseError, PointerBuf};
use json_patch::{
    AddOperation, CopyOperation, MoveOperation, Patch, PatchOperation, RemoveOperation,
    ReplaceOperation, TestOperation,
};
use crate::entry::NormalizedEntry;

verus! {

#[verifier::external_type_specification]
#[verifier::external_body]
pub struct ExPointerBuf(PointerBuf);

#[verifier::external_type_specification]
#[verifier::external_body]
pub struct ExParseError(ParseError);

#[verifier::external_type_specification]
pub struct ExPatch(Patch);

#[verifier::external_type_specification]
pub struct ExPatchOperation(PatchOperation);

#[verifier::external_type_specification]
pub struct ExAddOperation(AddOperation);

#[verifier::external_type_specification]
pub struct ExRemoveOperation(RemoveOperation);

#[verifier::external_type_specification]
pub struct ExReplaceOperation(ReplaceOperation);

#[verifier::external_type_specification]
pub struct ExMoveOperation(MoveOperation);

#[verifier::external_type_specification]
pub struct ExCopyOperation(CopyOperation);

#[verifier::external_type_specification]
pub struct ExTestOperation(TestOperation);

/// The pointer that parsing the text `s` produces.
pub uninterp spec fn pointer_from(s: Seq<char>) -> PointerBuf;

/// A well-formed JSON pointer: empty, or a `/` followed by text in which every `~` starts one
/// of the escapes `~0` and `~1`.
pub open spec fn valid_pointer(s: Seq<char>) -> bool {
    s.len() == 0 || (s[0] == '/' && forall|i: int|
        0 <= i < s.len() && #[trigger] s[i] == '~' ==> i + 1 < s.len() && (s[i + 1] == '0' || s[i
            + 1] == '1'))
}

/// Relies on `PointerBuf::try_from(String)` of jsonptr (json_patch's path type), which accepts
/// exactly the well-formed pointers and keeps the text as given.
#[verifier::external_body]
fn parse_pointer(s: String) -> (r: Result<PointerBuf, ParseError>)
    ensures
        r is Ok <==> valid_pointer(s@),
        r matches Ok(p) ==> p == pointer_from(s@),
{
    PointerBuf::try_from(s)
}

/// Relies on `String::push`: appends one character.
#[verifier::external_body]
fn push_char(s: &mut String, c: char)
    ensures
        final(s)@ == old(s)@.push(c),
{
    s.push(c)
}

/// A single change to the ordered sequence of entries.
#[derive(Debug, Clone)]
pub enum ConversationPatch {
    /// Appends `entry`; the index records where it lands and does not choose the position.
    Add { index: usize, entry: NormalizedEntry },
    Replace { index: usize, entry: NormalizedEntry },
    Remove { index: usize },
}

/// Why a receiver could not apply a patch to its sequence.
#[derive(Debug, Clone, Copy, PartialEq, Eq, Structural)]
pub enum PatchApplyError {
    IndexOutOfRange { index: usize, len: usize },
}

/// A patch in the generic operation form, with a flag for a change that could not be encoded.
#[derive(Debug)]
pub struct EncodedPatch {
    pub patch: Patch,
    /// Set when the change could not be represented and the operation list was left empty.
    pub anomaly: bool,
}

/// The decimal digit for `d < 10`.
pub open spec fn digit_char(d: nat) -> char {
    if d == 0 { '0' } else if d == 1 { '1' } else if d == 2 { '2' } else if d == 3 { '3' }
    else if d == 4 { '4' } else if d == 5 { '5' } else if d == 6 { '6' } else if d == 7 { '7' }
    else if d == 8 { '8' } else { '9' }
}

/// Decimal text of `n`, without leading zeros.
pub open spec fn decimal(n: nat) -> Seq<char>
    decreases n,
{
    if n < 10 {
        seq![digit_char(n)]
    } else {
        decimal(n / 10).push(digit_char(n % 10))
    }
}

/// The pointer text that addresses position `i` of the sequence.
pub open spec fn index_path(i: nat) -> Seq<char> {
    seq!['/'] + decimal(i)
}

/// The pointer text that addresses the end of the sequence.
pub open spec fn append_path() -> Seq<char> {
    seq!['/', '-']
}

/// Escape of one character of a pointer segment.
pub open spec fn escape_char(c: char) -> Seq<char> {
    if c == '~' {
        seq!['~', '0']
    } else if c == '/' {
        seq!['~', '1']
    } else {
        seq![c]
    }
}

/// A segment with `~` written `~0` and `/` written `~1`.
pub open spec fn escape_segment(s: Seq<char>) -> Seq<char>
    decreases s.len(),
{
    if s.len() == 0 {
        Seq::empty()
    } else {
        escape_segment(s.drop_last()) + escape_char(s.last())
    }
}

/// The one generic operation that `p` stands for, with `v` as the encoded entry (unused by a
/// remove).
pub open spec fn operation_of(p: ConversationPatch, v: Option<serde_json::Value>) -> PatchOperation {
    match p {
        ConversationPatch::Add { .. } => PatchOperation::Add(
            AddOperation { path: pointer_from(append_path()), value: v->0 },
        ),
        ConversationPatch::Replace { index, .. } => PatchOperation::Replace(
            ReplaceOperation { path: pointer_from(index_path(index as nat)), value: v->0 },
        ),
        ConversationPatch::Remove { index } => PatchOperation::Remove(
            RemoveOperation { path: pointer_from(index_path(index as nat)) },
        ),
    }
}

/// The sequence a receiver holds after applying `p` to `s`, or `None` when `p` does not fit.
pub open spec fn apply_spec(s: Seq<NormalizedEntry>, p: ConversationPatch) -> Option<Seq<NormalizedEntry>> {
    match p {
        ConversationPatch::Add { entry, .. } => Some(s.push(entry)),
        ConversationPatch::Replace { index, entry } => if index < s.len() {
            Some(s.update(index as int, entry))
        } else {
            None
        },
        ConversationPatch::Remove { index } => if index < s.len() {
            Some(s.remove(index as int))
        } else {
            None
        },
    }
}

/// `p`, written against a view that still held position `removed`, re-addressed to the view in
/// which that position has been removed; `None` when `p` addresses the removed position.
pub open spec fn rebase_spec(p: ConversationPatch, removed: nat) -> Option<ConversationPatch> {
    match p {
        ConversationPatch::Add { .. } => Some(p),
        ConversationPatch::Replace { index, entry } => if index == removed {
            None
        } else if index > removed {
            Some(ConversationPatch::Replace { index: (index - 1) as usize, entry })
        } else {
            Some(p)
        },
        ConversationPatch::Remove { index } => if index == removed {
            None
        } else if index > removed {
            Some(ConversationPatch::Remove { index: (index - 1) as usize })
        } else {
            Some(p)
        },
    }
}

fn digit(d: usize) -> (c: char)
    requires
        d < 10,
    ensures
        c == digit_char(d as nat),
{
    match d {
        0 => '0',
        1 => '1',
        2 => '2',
        3 => '3',
        4 => '4',
        5 => '5',
        6 => '6',
        7 => '7',
        8 => '8',
        _ => '9',
    }
}

pub(crate) fn push_decimal(s: &mut String, n: u64)
    ensures
        final(s)@ == old(s)@ + decimal(n as nat),
    decreases n,
{
    if n >= 10 {
        push_decimal(s, n / 10);
    }
    push_char(s, digit((n % 10) as usize));
    proof {
        assert(final(s)@ =~= old(s)@ + decimal(n as nat));
    }
}

/// Pointer text for position `i`.
pub fn index_pointer_text(i: usize) -> (r: String)
    ensures
        r@ == index_path(i as nat),
{
    let mut s = String::new();
    push_char(&mut s, '/');
    push_decimal(&mut s, i as u64);
    proof {
        assert(s@ =~= index_path(i as nat));
    }
    s
}

proof fn lemma_decimal_has_no_tilde(n: nat)
    ensures
        forall|i: int| 0 <= i < decimal(n).len() ==> #[trigger] decimal(n)[i] != '~',
    decreases n,
{
    if n >= 10 {
        lemma_decimal_has_no_tilde(n / 10);
        let prev = decimal(n / 10);
        assert forall|i: int| 0 <= i < decimal(n).len() implies #[trigger] decimal(n)[i] != '~' by {
            if i < prev.len() {
                assert(decimal(n)[i] == prev[i]);
            }
        }
    }
}

proof fn lemma_index_path_valid(i: nat)
    ensures
        valid_pointer(index_path(i)),
{
    lemma_decimal_has_no_tilde(i);
    let s = index_path(i);
    assert forall|k: int| 0 <= k < s.len() && #[trigger] s[k] == '~' implies false by {
        assert(s[k] == decimal(i)[k - 1]);
    }
}

/// Escapes a pointer segment: `~` becomes `~0` and `/` becomes `~1`.
pub fn escape_json_pointer_segment(segment: &str) -> (r: String)
    ensures
        r@ == escape_segment(segment@),
{
    let n = segment.unicode_len();
    let mut out = String::new();
    let mut i: usize = 0;
    while i < n
        invariant
            0 <= i <= n,
            n == segment@.len(),
            out@ == escape_segment(segment@.subrange(0, i as int)),
        decreases n - i,
    {
        let c = segment.get_char(i);
        if c == '~' {
            push_char(&mut out, '~');
            push_char(&mut out, '0');
        } else if c == '/' {
            push_char(&mut out, '~');
            push_char(&mut out, '1');
        } else {
            push_char(&mut out, c);
        }
        proof {
            let pre = segment@.subrange(0, i as int + 1);
            assert(pre.drop_last() =~= segment@.subrange(0, i as int));
            assert(pre.last() == c);
            assert(out@ =~= escape_segment(pre));
        }
        i += 1;
    }
    proof {
        assert(segment@.subrange(0, n as int) =~= segment@);
    }
    out
}

impl ConversationPatch {
    pub fn add(index: usize, entry: NormalizedEntry) -> (r: Self)
        ensures
            r == (ConversationPatch::Add { index, entry }),
    {
        ConversationPatch::Add { index, entry }
    }

    pub fn replace(index: usize, entry: NormalizedEntry) -> (r: Self)
        ensures
            r == (ConversationPatch::Replace { index, entry }),
    {
        ConversationPatch::Replace { index, entry }
    }

    pub fn remove(index: usize) -> (r: Self)
        ensures
            r == (ConversationPatch::Remove { index }),
    {
        ConversationPatch::Remove { index }
    }

    /// Encodes the patch as one generic operation: `add` at `/-`, `replace` and `remove` at
    /// `/<index>`. `entry_value` is the entry already encoded as JSON, or `None` when that
    /// encoding failed; then an add or replace yields an empty operation list with `anomaly`
    /// set. A remove needs no value.
    pub fn to_json_patch(&self, entry_value: Option<serde_json::Value>) -> (r: EncodedPatch)
        ensures
            (self is Remove || entry_value is Some) ==> {
                &&& !r.anomaly
                &&& r.patch.0@ == seq![operation_of(*self, entry_value)]
            },
            (!(self is Remove) && entry_value is None) ==> r.anomaly && r.patch.0@.len() == 0,
    {
        let empty = EncodedPatch { patch: Patch(Vec::new()), anomaly: true };
        match self {
            ConversationPatch::Add { .. } => {
                let value = match entry_value {
                    Some(v) => v,
                    None => return empty,
                };
                let text = String::from_str("/-");
                proof {
                    reveal_strlit("/-");
                    assert(text@ =~= append_path());
                }
                match parse_pointer(text) {
                    Ok(path) => EncodedPatch {
                        patch: Patch(vec![PatchOperation::Add(AddOperation { path, value })]),
                        anomaly: false,
                    },
                    Err(_) => empty,
                }
            },
            ConversationPatch::Replace { index, .. } => {
                let value = match entry_value {
                    Some(v) => v,
                    None => return empty,
                };
                proof {
                    lemma_index_path_valid(*index as nat);
                }
                match parse_pointer(index_pointer_text(*index)) {
                    Ok(path) => EncodedPatch {
                        patch: Patch(vec![PatchOperation::Replace(ReplaceOperation { path, value })]),
                        anomaly: false,
                    },
                    Err(_) => empty,
                }
            },
            ConversationPatch::Remove { index } => {
                proof {
                    lemma_index_path_valid(*index as nat);
                }
                match parse_pointer(index_pointer_text(*index)) {
                    Ok(path) => EncodedPatch {
                        patch: Patch(vec![PatchOperation::Remove(RemoveOperation { path })]),
                        anomaly: false,
                    },
                    Err(_) => empty,
                }
            },
        }
    }

    /// One `add` of `diff` at an arbitrary pointer, for side-channel state; an ill-formed
    /// pointer gives an empty operation list with `anomaly` set.
    pub fn add_diff(path: String, diff: serde_json::Value) -> (r: EncodedPatch)
        ensures
            r.anomaly == !valid_pointer(path@),
            valid_pointer(path@) ==> r.patch.0@ == seq![
                PatchOperation::Add(AddOperation { path: pointer_from(path@), value: diff }),
            ],
            !valid_pointer(path@) ==> r.patch.0@.len() == 0,
    {
        match parse_pointer(path) {
            Ok(p) => EncodedPatch {
                patch: Patch(vec![PatchOperation::Add(AddOperation { path: p, value: diff })]),
                anomaly: false,
            },
            Err(_) => EncodedPatch { patch: Patch(Vec::new()), anomaly: true },
        }
    }

    /// One `remove` at an arbitrary pointer; an ill-formed pointer gives an empty list with
    /// `anomaly` set.
    pub fn remove_diff(path: String) -> (r: EncodedPatch)
        ensures
            r.anomaly == !valid_pointer(path@),
            valid_pointer(path@) ==> r.patch.0@ == seq![
                PatchOperation::Remove(RemoveOperation { path: pointer_from(path@) }),
            ],
            !valid_pointer(path@) ==> r.patch.0@.len() == 0,
    {
        match parse_pointer(path) {
            Ok(p) => EncodedPatch {
                patch: Patch(vec![PatchOperation::Remove(RemoveOperation { path: p })]),
                anomaly: false,
            },
            Err(_) => EncodedPatch { patch: Patch(Vec::new()), anomaly: true },
        }
    }
}

/// The entry that an add or a replace carries.
pub fn extract_normalized_entry_from_patch(patch: &ConversationPatch) -> (r: Option<&NormalizedEntry>)
    ensures
        r == (match *patch {
            ConversationPatch::Add { entry, .. } => Some(&entry),
            ConversationPatch::Replace { entry, .. } => Some(&entry),
            ConversationPatch::Remove { .. } => None,
        }),
{
    match patch {
        ConversationPatch::Add { entry, .. } | ConversationPatch::Replace { entry, .. } => Some(entry),
        ConversationPatch::Remove { .. } => None,
    }
}

/// Applies `patch` to the receiver's sequence, as a log store does; a patch whose index is not
/// a position of the sequence is refused and the sequence is left as it was.
pub fn apply_patch(entries: &mut Vec<NormalizedEntry>, patch: ConversationPatch) -> (r: Result<(), PatchApplyError>)
    ensures
        apply_spec(old(entries)@, patch) matches Some(s) ==> r is Ok && final(entries)@ == s,
        apply_spec(old(entries)@, patch) is None ==> final(entries)@ == old(entries)@ && r == Err::<(), PatchApplyError>(
            PatchApplyError::IndexOutOfRange { index: target_of(patch)->0 as usize, len: old(entries)@.len() as usize },
        ),
{
    let len = entries.len();
    match patch {
        ConversationPatch::Add { entry, .. } => {
            entries.push(entry);
            Ok(())
        },
        ConversationPatch::Replace { index, entry } => {
            if index >= len {
                return Err(PatchApplyError::IndexOutOfRange { index, len });
            }
            let _previous = entries.remove(index);
            entries.insert(index, entry);
            proof {
                assert(entries@ =~= old(entries)@.update(index as int, entry));
            }
            Ok(())
        },
        ConversationPatch::Remove { index } => {
            if index >= len {
                return Err(PatchApplyError::IndexOutOfRange { index, len });
            }
            let _previous = entries.remove(index);
            Ok(())
        },
    }
}

/// Applies `p` when there is one and the sequence is still defined.
pub open spec fn apply_opt(s: Option<Seq<NormalizedEntry>>, p: Option<ConversationPatch>) -> Option<Seq<NormalizedEntry>> {
    match (s, p) {
        (Some(s), Some(p)) => apply_spec(s, p),
        _ => None,
    }
}

/// The position a patch addresses; an add addresses none.
pub open spec fn target_of(p: ConversationPatch) -> Option<nat> {
    match p {
        ConversationPatch::Add { .. } => None,
        ConversationPatch::Replace { index, .. } => Some(index as nat),
        ConversationPatch::Remove { index } => Some(index as nat),
    }
}

/// `p` re-addressed after `q` was applied: only a remove shifts later positions down.
pub open spec fn after_spec(p: ConversationPatch, q: ConversationPatch) -> Option<ConversationPatch> {
    match q {
        ConversationPatch::Remove { index } => rebase_spec(p, index as nat),
        _ => Some(p),
    }
}

/// An add followed at once by a replace of the position it filled leaves the same sequence as
/// appending the replacement directly.
pub proof fn lemma_add_then_replace(s: Seq<NormalizedEntry>, e: NormalizedEntry, e2: NormalizedEntry, i: usize)
    requires
        s.len() <= usize::MAX,
    ensures
        apply_opt(
            apply_spec(s, ConversationPatch::Add { index: i, entry: e }),
            Some(ConversationPatch::Replace { index: s.len() as usize, entry: e2 }),
        ) == Some(s.push(e2)),
{
    assert(s.push(e).update(s.len() as int, e2) =~= s.push(e2));
}

/// Two patches written against the same view, one of them `Remove(i)`, give the same sequence
/// whichever is applied first, as long as the second is re-addressed against the view the first
/// left behind; a patch that addressed the removed position itself has nothing left to address.
pub proof fn lemma_remove_rebase(s: Seq<NormalizedEntry>, i: usize, q: ConversationPatch)
    requires
        i < s.len(),
        apply_spec(s, q) is Some,
        target_of(q) != Some(i as nat),
    ensures
        apply_opt(apply_spec(s, ConversationPatch::Remove { index: i }), rebase_spec(q, i as nat))
            == apply_opt(apply_spec(s, q), after_spec(ConversationPatch::Remove { index: i }, q)),
        apply_opt(apply_spec(s, ConversationPatch::Remove { index: i }), rebase_spec(q, i as nat)) is Some,
{
    match q {
        ConversationPatch::Add { entry, .. } => {
            assert(s.remove(i as int).push(entry) =~= s.push(entry).remove(i as int));
        },
        ConversationPatch::Replace { index, entry } => {
            if index > i {
                assert(s.remove(i as int).update(index - 1, entry) =~= s.update(index as int, entry).remove(i as int));
            } else {
                assert(s.remove(i as int).update(index as int, entry) =~= s.update(index as int, entry).remove(i as int));
            }
        },
        ConversationPatch::Remove { index } => {
            if index > i {
                assert(s.remove(i as int).remove(index - 1) =~= s.remove(index as int).remove(i as int));
            } else {
                assert(s.remove(i as int).remove(index as int) =~= s.remove(index as int).remove(i - 1));
            }
        },
    }
}

/// An escaped segment after a `/` is always a well-formed pointer.
pub proof fn lemma_escaped_segment_is_valid(seg: Seq<char>)
    ensures
        valid_pointer(seq!['/'] + escape_segment(seg)),
{
    lemma_escape_tildes(seg);
    let s = seq!['/'] + escape_segment(seg);
    assert forall|k: int| 0 <= k < s.len() && #[trigger] s[k] == '~' implies k + 1 < s.len() && (s[k + 1] == '0' || s[k + 1] == '1') by {
        assert(s[k] == escape_segment(seg)[k - 1]);
        assert(s[k + 1] == escape_segment(seg)[k]);
    }
}

proof fn lemma_escape_tildes(seg: Seq<char>)
    ensures
        forall|k: int| 0 <= k < escape_segment(seg).len() && #[trigger] escape_segment(seg)[k] == '~'
            ==> k + 1 < escape_segment(seg).len() && (escape_segment(seg)[k + 1] == '0' || escape_segment(seg)[k + 1] == '1'),
    decreases seg.len(),
{
    if seg.len() > 0 {
        let prev = escape_segment(seg.drop_last());
        lemma_escape_tildes(seg.drop_last());
        let tail = escape_char(seg.last());
        let e = escape_segment(seg);
        assert(e == prev + tail);
        assert forall|k: int| 0 <= k < e.len() && #[trigger] e[k] == '~' implies k + 1 < e.len() && (e[k + 1] == '0' || e[k + 1] == '1') by {
            if k < prev.len() {
                assert(e[k] == prev[k]);
                if k + 1 < prev.len() {
                    assert(e[k + 1] == prev[k + 1]);
                }
            } else {
                assert(e[k] == tail[k - prev.len()]);
                if k + 1 < e.len() {
                    assert(e[k + 1] == tail[k + 1 - prev.len()]);
                }
            }
        }
    }
}

impl ConversationPatch {
    /// Re-addresses a patch written against the view before `Remove(removed)` to the view after
    /// it; `None` when the patch addressed the removed position.
    pub fn rebase_after_remove(self, removed: usize) -> (r: Option<ConversationPatch>)
        ensures
            r == rebase_spec(self, removed as nat),
    {
        match self {
            ConversationPatch::Add { index, entry } => Some(ConversationPatch::Add { index, entry }),
            ConversationPatch::Replace { index, entry } => {
                if index == removed {
                    None
                } else if index > removed {
                    Some(ConversationPatch::Replace { index: index - 1, entry })
                } else {
                    Some(ConversationPatch::Replace { index, entry })
                }
            },
            ConversationPatch::Remove { index } => {
                if index == removed {
                    None
                } else if index > removed {
                    Some(ConversationPatch::Remove { index: index - 1 })
                } else {
                    Some(ConversationPatch::Remove { index })
                }
            },
        }
    }
}

} // verus!
