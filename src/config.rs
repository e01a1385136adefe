use vstd::prelude::*;
use crate::profile::{BaseCodingAgent, ExecutorProfileId, agent_name};

verus! {

#[verifier::external_type_specification]
#[verifier::external_body]
pub struct ExPathBuf(std::path::PathBuf);

#[verifier::external_type_specification]
#[verifier::external_body]
pub struct ExIoError(std::io::Error);

/// What an agent can do.
#[derive(Debug, Clone, Copy, PartialEq, Eq, Structural)]
pub enum BaseAgentCapability {
    Chat,
    Edit,
    Terminal,
}

/// Whether an agent can be used here.
#[derive(Debug, Clone)]
pub enum AvailabilityInfo {
    Available,
    NotAvailable { reason: Option<String> },
    NotFound,
}

/// An agent entry of the configuration; execution is disabled for every agent.
#[derive(Debug, Clone)]
pub struct CodingAgentStub {
    pub name: String,
}

/// Configured MCP servers of an agent.
#[derive(Debug, Clone)]
pub struct McpConfig {
    /// Servers by name; see `wf`.
    pub servers: Vec<(String, serde_json::Value)>,
    pub servers_path: Option<std::path::PathBuf>,
}

/// Agent configurations, by name.
#[derive(Debug, Clone)]
pub struct ExecutorConfigs {
    /// Agents by name; see `wf`.
    pub executors: Vec<(String, CodingAgentStub)>,
}

/// No two pairs of `s` share a key.
pub open spec fn names_unique<T>(s: Seq<(String, T)>) -> bool {
    forall|i: int, j: int|
        0 <= i < s.len() && 0 <= j < s.len() && i != j ==> (#[trigger] s[i]).0@ != (#[trigger] s[j]).0@
}

impl McpConfig {
    /// Server names are unique.
    pub open spec fn wf(&self) -> bool {
        names_unique(self.servers@)
    }
}

impl ExecutorConfigs {
    /// Agent names are unique.
    pub open spec fn wf(&self) -> bool {
        names_unique(self.executors@)
    }
}

/// The reason given for an agent that cannot run.
pub open spec fn disabled_reason() -> Seq<char> {
    "Execution disabled"@
}

impl McpConfig {
    pub fn new() -> (r: Self)
        ensures
            r.wf(),
            r.servers@.len() == 0,
            r.servers_path is None,
    {
        McpConfig { servers: Vec::new(), servers_path: None }
    }
}

impl Default for McpConfig {
    fn default() -> (r: Self)
        ensures
            r.wf(),
            r.servers@.len() == 0,
            r.servers_path is None,
    {
        McpConfig::new()
    }
}

impl CodingAgentStub {
    /// No capability is offered while execution is disabled.
    pub fn capabilities(&self) -> (r: Vec<BaseAgentCapability>)
        ensures
            r@.len() == 0,
    {
        Vec::new()
    }

    pub fn supports_mcp(&self) -> (r: bool)
        ensures
            !r,
    {
        false
    }

    pub fn default_mcp_config_path(&self) -> (r: Option<std::path::PathBuf>)
        ensures
            r is None,
    {
        None
    }

    pub fn get_availability_info(&self) -> (r: AvailabilityInfo)
        ensures
            r matches AvailabilityInfo::NotAvailable { reason: Some(m) } && m@ == disabled_reason(),
    {
        AvailabilityInfo::NotAvailable { reason: Some(String::from_str("Execution disabled")) }
    }
}

impl ExecutorConfigs {
    /// The configuration in use: no agent is configured.
    pub fn get_cached() -> (r: Self)
        ensures
            r.wf(),
            r.executors@.len() == 0,
    {
        ExecutorConfigs { executors: Vec::new() }
    }

    /// The built-in defaults: no agent is configured.
    pub fn from_defaults() -> (r: Self)
        ensures
            r.wf(),
            r.executors@.len() == 0,
    {
        ExecutorConfigs { executors: Vec::new() }
    }

    /// The profile to use when the caller names none: `claude_code`, without a variant.
    pub fn get_recommended_executor_profile(&self) -> (r: Result<ExecutorProfileId, String>)
        ensures
            r matches Ok(p) && p.executor@ == agent_name(BaseCodingAgent::ClaudeCode) && p.variant is None,
    {
        Ok(ExecutorProfileId::from_agent(BaseCodingAgent::ClaudeCode))
    }

    /// No agent can be looked up while execution is disabled.
    pub fn get_coding_agent(&self, _profile_id: &ExecutorProfileId) -> (r: Option<&CodingAgentStub>)
        ensures
            r is None,
    {
        None
    }

    /// Nothing is stored while execution is disabled.
    pub fn save_overrides(&self) -> (r: Result<(), std::io::Error>)
        ensures
            r is Ok,
    {
        Ok(())
    }

    /// Nothing is reloaded while execution is disabled.
    pub fn reload() {
    }
}

} // verus!
