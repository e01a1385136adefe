use services::command::{CommandBuilder, ExecutorError};
use services::config::{AvailabilityInfo, CodingAgentStub, ExecutorConfigs, McpConfig};
use services::profile::{BaseCodingAgent, ExecutorProfileId};
use std::str::FromStr;

#[test]
fn agent_names_parse_in_any_case() {
    assert_eq!(BaseCodingAgent::from_str("claude_code"), Ok(BaseCodingAgent::ClaudeCode));
    assert_eq!(BaseCodingAgent::from_str("ClaudeCode"), Ok(BaseCodingAgent::ClaudeCode));
    assert_eq!(BaseCodingAgent::from_str("cursor"), Ok(BaseCodingAgent::Cursor));
    assert_eq!(BaseCodingAgent::from_str("CODEX"), Ok(BaseCodingAgent::Codex));
    assert_eq!(BaseCodingAgent::from_str("amp"), Ok(BaseCodingAgent::Amp));
    assert_eq!(BaseCodingAgent::from_str("gemini_cli"), Ok(BaseCodingAgent::GeminiCli));
    assert_eq!(BaseCodingAgent::from_str("geminicli"), Ok(BaseCodingAgent::GeminiCli));
    assert_eq!(BaseCodingAgent::from_str("vim"), Err("Unknown executor: vim".to_string()));
}

#[test]
fn agent_from_string_falls_back() {
    assert_eq!(BaseCodingAgent::from("amp".to_string()), BaseCodingAgent::Amp);
    assert_eq!(BaseCodingAgent::from("emacs".to_string()), BaseCodingAgent::ClaudeCode);
}

#[test]
fn agent_display_names() {
    assert_eq!(BaseCodingAgent::ClaudeCode.to_string(), "claude_code");
    assert_eq!(BaseCodingAgent::GeminiCli.to_string(), "gemini_cli");
    assert_eq!(BaseCodingAgent::Cursor.to_string(), "cursor");
}

#[test]
fn profile_ids_compare_structurally() {
    let a = ExecutorProfileId::new_with_variant("codex".to_string(), Some("fast".to_string()));
    let b = ExecutorProfileId::new_with_variant("codex".to_string(), Some("fast".to_string()));
    let c = ExecutorProfileId::new("codex".to_string());
    assert!(a == b);
    assert!(a != c);
    assert!(c == ExecutorProfileId::new("codex".to_string()));
    let d = ExecutorProfileId::from_agent(BaseCodingAgent::Amp);
    assert_eq!(d.executor, "amp");
    assert!(d.variant.is_none());
}

#[test]
fn command_builder_keeps_last_env_value() {
    let parts = CommandBuilder::new("git".to_string())
        .arg("status".to_string())
        .env("A".to_string(), "1".to_string())
        .env("B".to_string(), "2".to_string())
        .env("A".to_string(), "3".to_string())
        .arg("-s".to_string())
        .build_initial()
        .unwrap();
    assert_eq!(parts.command, "git");
    assert_eq!(parts.args, vec!["status".to_string(), "-s".to_string()]);
    assert_eq!(
        parts.env,
        vec![("A".to_string(), "3".to_string()), ("B".to_string(), "2".to_string())]
    );
}

#[test]
fn configs_are_empty_and_execution_disabled() {
    let c = ExecutorConfigs::get_cached();
    assert!(c.executors.is_empty());
    assert!(ExecutorConfigs::from_defaults().executors.is_empty());
    let p = c.get_recommended_executor_profile().unwrap();
    assert_eq!(p.executor, "claude_code");
    assert!(c.get_coding_agent(&p).is_none());
    assert!(c.save_overrides().is_ok());
    ExecutorConfigs::reload();
    let agent = CodingAgentStub { name: "x".to_string() };
    assert!(agent.capabilities().is_empty());
    assert!(!agent.supports_mcp());
    assert!(agent.default_mcp_config_path().is_none());
    match agent.get_availability_info() {
        AvailabilityInfo::NotAvailable { reason } => assert_eq!(reason, Some("Execution disabled".to_string())),
        _ => panic!("expected NotAvailable"),
    }
    let m = McpConfig::default();
    assert!(m.servers.is_empty() && m.servers_path.is_none());
}

#[test]
fn profile_from_agent_via_from() {
    let p = ExecutorProfileId::from(BaseCodingAgent::GeminiCli);
    assert_eq!(p.executor, "gemini_cli");
    assert!(p.variant.is_none());
}

#[test]
fn missing_executable_is_not_found() {
    let parts = || CommandBuilder::new("tool".to_string()).arg("x".to_string()).build_initial().unwrap();
    match parts().resolve_with(None) {
        Err(ExecutorError::ExecutableNotFound { program }) => assert_eq!(program, "tool"),
        _ => panic!("expected ExecutableNotFound"),
    }
    let (c, a) = parts().resolve_with(Some("/usr/bin/tool".to_string())).unwrap();
    assert_eq!(c, "/usr/bin/tool");
    assert_eq!(a, vec!["x".to_string()]);
}

#[test]
fn agent_display_names_parse_back() {
    for a in [
        BaseCodingAgent::ClaudeCode,
        BaseCodingAgent::Cursor,
        BaseCodingAgent::Codex,
        BaseCodingAgent::Amp,
        BaseCodingAgent::GeminiCli,
    ] {
        assert_eq!(BaseCodingAgent::from_str(&a.to_string()), Ok(a));
    }
}
