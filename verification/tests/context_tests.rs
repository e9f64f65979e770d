use fae_agent::context::{Agent, AgentContext, SkillInfo};

fn test_context() -> AgentContext {
    AgentContext::new(
        "agent-1".to_string(),
        "Test Agent".to_string(),
        "openai".to_string(),
        "gpt-4".to_string(),
    )
}

#[test]
fn test_agent_context_creation() {
    let ctx = test_context();

    assert_eq!(ctx.id, "agent-1");
    assert_eq!(ctx.name, "Test Agent");
    assert!(ctx.system_prompt.is_none());
    assert!(ctx.skills.is_empty());
}

#[test]
fn test_agent_context_with_system_prompt() {
    let ctx = test_context().with_system_prompt("You are helpful".to_string());

    assert_eq!(ctx.system_prompt, Some("You are helpful".to_string()));
}

#[test]
fn test_agent_context_with_skills() {
    let skills = vec![
        SkillInfo {
            id: "search".to_string(),
            name: "Search".to_string(),
            description: "Search the web".to_string(),
            enabled: true,
        },
        SkillInfo {
            id: "calculate".to_string(),
            name: "Calculate".to_string(),
            description: "Do math".to_string(),
            enabled: false,
        },
    ];

    let ctx = test_context().with_skills(skills);

    assert_eq!(ctx.skills.len(), 2);
    assert_eq!(ctx.get_enabled_skills().len(), 1);
    assert!(ctx.has_skills());
}

#[test]
fn test_agent_context_metadata() {
    let ctx = test_context()
        .with_metadata("version".to_string(), "1.0".to_string())
        .with_metadata("env".to_string(), "production".to_string());

    assert_eq!(ctx.metadata.get("version"), Some(&"1.0".to_string()));
    assert_eq!(ctx.metadata.get("env"), Some(&"production".to_string()));
}

#[test]
fn test_agent_context_from_model() {
    let agent = Agent {
        id: "agent-1".to_string(),
        name: "Test Agent".to_string(),
        provider: "ollama".to_string(),
        provider_config_id: None,
        model: "llama2".to_string(),
        system_prompt: Some("Be helpful".to_string()),
        avatar_url: None,
        skills: vec!["search".to_string(), "calculate".to_string()],
        created_at: 1_700_000_000,
        updated_at: 1_700_000_000,
    };

    let ctx = AgentContext::from_agent(agent);

    assert_eq!(ctx.id, "agent-1");
    assert_eq!(ctx.name, "Test Agent");
    assert_eq!(ctx.system_prompt, Some("Be helpful".to_string()));
    assert_eq!(ctx.skills.len(), 2);
    assert_eq!(ctx.skills[0].id, "search");
}

#[test]
fn context_skill_names_are_all_ids() {
    let ctx = test_context().with_skills(vec![
        SkillInfo {
            id: "a".to_string(),
            name: "Alpha".to_string(),
            description: String::new(),
            enabled: false,
        },
        SkillInfo {
            id: "b".to_string(),
            name: "Beta".to_string(),
            description: String::new(),
            enabled: true,
        },
    ]);
    assert_eq!(ctx.get_skill_names(), vec!["a", "b"]);
    assert_eq!(ctx.get_enabled_skills().len(), 1);
    assert_eq!(ctx.get_enabled_skills()[0].name, "Beta");
    assert!(ctx.has_skills());
    assert!(!test_context().has_skills());
}

#[test]
fn context_metadata_later_value_wins() {
    let ctx = test_context()
        .with_metadata("k".to_string(), "1".to_string())
        .with_metadata("k".to_string(), "2".to_string());
    assert_eq!(ctx.metadata.get("k"), Some(&"2".to_string()));
    assert_eq!(ctx.metadata.len(), 1);
    assert_eq!(ctx.metadata.get("missing"), None);
}

#[test]
fn context_avatar_and_disabled_skills() {
    let ctx = test_context().with_avatar_url("https://img/a.png".to_string());
    assert_eq!(ctx.avatar_url, Some("https://img/a.png".to_string()));
    assert_eq!(ctx.provider, "openai");
    assert_eq!(ctx.model, "gpt-4");
    assert!(ctx.get_enabled_skills().is_empty());
}
