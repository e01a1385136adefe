use vstd::prelude::*;

verus! {

/// What `str::to_uppercase` makes of the text `s`.
pub uninterp spec fn upper_of(s: Seq<char>) -> Seq<char>;

/// Relies on `str::to_uppercase`: the result depends on the characters alone.
#[verifier::external_body]
fn to_upper(s: &str) -> (r: String)
    ensures
        r@ == upper_of(s@),
{
    s.to_uppercase()
}

/// Whether two texts are equal, character by character.
pub fn str_eq(a: &str, b: &str) -> (r: bool)
    ensures
        r == (a@ == b@),
{
    let n = a.unicode_len();
    if n != b.unicode_len() {
        return false;
    }
    let mut i: usize = 0;
    while i < n
        invariant
            0 <= i <= n,
            n == a@.len(),
            n == b@.len(),
            forall|k: int| 0 <= k < i ==> a@[k] == b@[k],
        decreases n - i,
    {
        if a.get_char(i) != b.get_char(i) {
            return false;
        }
        i += 1;
    }
    proof {
        assert(a@ =~= b@);
    }
    true
}

/// A coding-agent backend.
#[derive(Debug, Clone, Copy, PartialEq, Eq, Structural)]
pub enum BaseCodingAgent {
    ClaudeCode,
    Cursor,
    Codex,
    Amp,
    GeminiCli,
}

/// The agent named by upper-case text, if any.
pub open spec fn agent_from_upper(u: Seq<char>) -> Option<BaseCodingAgent> {
    if u == "CLAUDE_CODE"@ || u == "CLAUDECODE"@ {
        Some(BaseCodingAgent::ClaudeCode)
    } else if u == "CURSOR"@ {
        Some(BaseCodingAgent::Cursor)
    } else if u == "CODEX"@ {
        Some(BaseCodingAgent::Codex)
    } else if u == "AMP"@ {
        Some(BaseCodingAgent::Amp)
    } else if u == "GEMINI_CLI"@ || u == "GEMINICLI"@ {
        Some(BaseCodingAgent::GeminiCli)
    } else {
        None
    }
}

/// The display name of an agent.
pub open spec fn agent_name(a: BaseCodingAgent) -> Seq<char> {
    match a {
        BaseCodingAgent::ClaudeCode => "claude_code"@,
        BaseCodingAgent::Cursor => "cursor"@,
        BaseCodingAgent::Codex => "codex"@,
        BaseCodingAgent::Amp => "amp"@,
        BaseCodingAgent::GeminiCli => "gemini_cli"@,
    }
}

/// The message for text that names no agent.
pub open spec fn unknown_agent_message(s: Seq<char>) -> Seq<char> {
    "Unknown executor: "@ + s
}

impl BaseCodingAgent {
    /// Reads an agent from its name already in upper case; `given` is the text as the caller
    /// wrote it, quoted in the error.
    pub fn from_upper(upper: &str, given: &str) -> (r: Result<BaseCodingAgent, String>)
        ensures
            agent_from_upper(upper@) matches Some(a) ==> r == Ok::<BaseCodingAgent, String>(a),
            agent_from_upper(upper@) is None ==> (r matches Err(m) && m@ == unknown_agent_message(given@)),
    {
        if str_eq(upper, "CLAUDE_CODE") || str_eq(upper, "CLAUDECODE") {
            Ok(BaseCodingAgent::ClaudeCode)
        } else if str_eq(upper, "CURSOR") {
            Ok(BaseCodingAgent::Cursor)
        } else if str_eq(upper, "CODEX") {
            Ok(BaseCodingAgent::Codex)
        } else if str_eq(upper, "AMP") {
            Ok(BaseCodingAgent::Amp)
        } else if str_eq(upper, "GEMINI_CLI") || str_eq(upper, "GEMINICLI") {
            Ok(BaseCodingAgent::GeminiCli)
        } else {
            let mut m = String::from_str("Unknown executor: ");
            m.append(given);
            Err(m)
        }
    }

    /// Reads an agent from its name in any letter case.
    pub fn parse_name(s: &str) -> (r: Result<BaseCodingAgent, String>)
        ensures
            agent_from_upper(upper_of(s@)) matches Some(a) ==> r == Ok::<BaseCodingAgent, String>(a),
            agent_from_upper(upper_of(s@)) is None ==> (r matches Err(m) && m@ == unknown_agent_message(s@)),
    {
        let upper = to_upper(s);
        BaseCodingAgent::from_upper(upper.as_str(), s)
    }

    /// The agent's display name.
    pub fn to_string(&self) -> (r: String)
        ensures
            r@ == agent_name(*self),
    {
        match self {
            BaseCodingAgent::ClaudeCode => String::from_str("claude_code"),
            BaseCodingAgent::Cursor => String::from_str("cursor"),
            BaseCodingAgent::Codex => String::from_str("codex"),
            BaseCodingAgent::Amp => String::from_str("amp"),
            BaseCodingAgent::GeminiCli => String::from_str("gemini_cli"),
        }
    }
}

impl std::str::FromStr for BaseCodingAgent {
    type Err = String;

    fn from_str(s: &str) -> (r: Result<Self, Self::Err>)
        ensures
            agent_from_upper(upper_of(s@)) matches Some(a) ==> r == Ok::<BaseCodingAgent, String>(a),
            agent_from_upper(upper_of(s@)) is None ==> (r matches Err(m) && m@ == unknown_agent_message(s@)),
    {
        BaseCodingAgent::parse_name(s)
    }
}

impl From<String> for BaseCodingAgent {
    /// An unknown name falls back to `ClaudeCode`.
    fn from(s: String) -> (r: BaseCodingAgent) {
        match BaseCodingAgent::parse_name(s.as_str()) {
            Ok(a) => a,
            Err(_) => BaseCodingAgent::ClaudeCode,
        }
    }
}

impl vstd::std_specs::convert::FromSpecImpl<String> for BaseCodingAgent {
    open spec fn obeys_from_spec() -> bool {
        true
    }

    open spec fn from_spec(s: String) -> BaseCodingAgent {
        match agent_from_upper(upper_of(s@)) {
            Some(a) => a,
            None => BaseCodingAgent::ClaudeCode,
        }
    }
}

/// Names an agent backend and, optionally, a variant of it.
#[derive(Debug, Clone)]
pub struct ExecutorProfileId {
    pub executor: String,
    pub variant: Option<String>,
}

/// Optional texts compared by their characters.
pub open spec fn same_opt_text(a: Option<String>, b: Option<String>) -> bool {
    match (a, b) {
        (Some(x), Some(y)) => x@ == y@,
        (None, None) => true,
        _ => false,
    }
}

impl PartialEq for ExecutorProfileId {
    fn eq(&self, o: &ExecutorProfileId) -> (r: bool) {
        if self.executor != o.executor {
            return false;
        }
        match (&self.variant, &o.variant) {
            (Some(x), Some(y)) => *x == *y,
            (None, None) => true,
            _ => false,
        }
    }
}

impl vstd::std_specs::cmp::PartialEqSpecImpl for ExecutorProfileId {
    open spec fn obeys_eq_spec() -> bool {
        true
    }

    open spec fn eq_spec(&self, o: &ExecutorProfileId) -> bool {
        self.executor@ == o.executor@ && same_opt_text(self.variant, o.variant)
    }
}

impl Eq for ExecutorProfileId {}

impl ExecutorProfileId {
    pub fn new_with_variant(executor: String, variant: Option<String>) -> (r: Self)
        ensures
            r == (ExecutorProfileId { executor, variant }),
    {
        ExecutorProfileId { executor, variant }
    }

    pub fn new(executor: String) -> (r: Self)
        ensures
            r == (ExecutorProfileId { executor, variant: None }),
    {
        ExecutorProfileId { executor, variant: None }
    }

    /// The profile of an agent, without a variant.
    pub fn from_agent(agent: BaseCodingAgent) -> (r: Self)
        ensures
            r.executor@ == agent_name(agent),
            r.variant is None,
    {
        ExecutorProfileId { executor: agent.to_string(), variant: None }
    }
}

impl From<BaseCodingAgent> for ExecutorProfileId {
    /// The profile of an agent, without a variant; see `ExecutorProfileId::from_agent`.
    fn from(agent: BaseCodingAgent) -> (r: ExecutorProfileId)
        ensures
            r.executor@ == agent_name(agent),
            r.variant is None,
    {
        ExecutorProfileId::from_agent(agent)
    }
}

impl vstd::std_specs::convert::FromSpecImpl<BaseCodingAgent> for ExecutorProfileId {
    /// The result holds a fresh `String`, which no spec value can name; what it holds is stated
    /// by `from_agent`.
    open spec fn obeys_from_spec() -> bool {
        false
    }

    open spec fn from_spec(agent: BaseCodingAgent) -> ExecutorProfileId {
        arbitrary()
    }
}

} // verus!
