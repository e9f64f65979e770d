use fae_agent::context::{AgentContext, SkillInfo};
use fae_agent::maps::StringMap;
use fae_agent::prompts::{build_system_prompt, render_system_context, skills_to_tools, PromptBuilder};

#[test]
fn test_skills_to_tools_empty() {
    let skills: Vec<String> = vec![];
    let definitions = StringMap::new();
    let tools = skills_to_tools(&skills, &definitions);
    assert!(tools.is_empty());
}

#[test]
fn test_skills_to_tools_single() {
    let skills = vec!["search".to_string()];
    let mut definitions = StringMap::new();
    definitions.insert("search".to_string(), "Search the web".to_string());
    let tools = skills_to_tools(&skills, &definitions);
    assert_eq!(tools.len(), 1);
    assert_eq!(tools[0].function.as_ref().unwrap().name, "search");
    assert_eq!(tools[0].function.as_ref().unwrap().description, "Search the web");
}

#[test]
fn test_skills_to_tools_multiple() {
    let skills = vec!["search".to_string(), "calculate".to_string()];
    let mut definitions = StringMap::new();
    definitions.insert("search".to_string(), "Search the web".to_string());
    definitions.insert("calculate".to_string(), "Perform calculations".to_string());
    let tools = skills_to_tools(&skills, &definitions);
    assert_eq!(tools.len(), 2);
}

#[test]
fn test_skills_to_tools_missing_definition() {
    let skills = vec!["unknown".to_string()];
    let definitions = StringMap::new();
    let tools = skills_to_tools(&skills, &definitions);
    assert_eq!(tools.len(), 1);
    assert_eq!(
        tools[0].function.as_ref().unwrap().description,
        "Execute the unknown skill"
    );
}

#[test]
fn test_build_system_prompt_empty() {
    let skills: Vec<String> = vec![];
    let prompt = build_system_prompt(&skills);
    assert_eq!(prompt, "You are a helpful assistant.");
}

#[test]
fn test_build_system_prompt_with_skills() {
    let skills = vec!["search".to_string(), "calculate".to_string()];
    let prompt = build_system_prompt(&skills);
    assert!(prompt.contains("Available tools: search, calculate"));
    assert!(prompt.contains("You are a helpful assistant with access to tools"));
}

#[test]
fn test_tool_parameters_structure() {
    let skills = vec!["test".to_string()];
    let definitions = StringMap::new();
    let tools = skills_to_tools(&skills, &definitions);
    let params = &tools[0].function.as_ref().unwrap().parameters;
    assert_eq!(params.properties.len(), 1);
    assert_eq!(params.properties[0].name, "input");
    assert_eq!(params.required, vec!["input".to_string()]);
}

fn create_test_context() -> AgentContext {
    AgentContext::new(
        "agent-123".to_string(),
        "TestBot".to_string(),
        "openai".to_string(),
        "gpt-4".to_string(),
    )
    .with_system_prompt("You are a test assistant.".to_string())
    .with_skills(vec![
        SkillInfo {
            id: "search".to_string(),
            name: "Search".to_string(),
            description: "Search the web".to_string(),
            enabled: true,
        },
        SkillInfo {
            id: "calculate".to_string(),
            name: "Calculate".to_string(),
            description: "Perform calculations".to_string(),
            enabled: true,
        },
    ])
}

#[test]
fn test_prompt_builder_basic() {
    let context = create_test_context();
    let builder = PromptBuilder::new();
    let prompt = builder.build(&context);
    assert!(prompt.contains("TestBot"));
    assert!(prompt.contains("agent-123"));
    assert!(prompt.contains("openai"));
    assert!(prompt.contains("gpt-4"));
}

#[test]
fn test_prompt_builder_with_custom_instruction() {
    let context = create_test_context();
    let builder = PromptBuilder::new().add_custom_instruction("Always be polite.".to_string());
    let prompt = builder.build(&context);
    assert!(prompt.contains("Always be polite."));
}

#[test]
fn test_prompt_builder_without_agent_info() {
    let context = create_test_context();
    let builder = PromptBuilder::new().with_agent_info(false);
    let prompt = builder.build(&context);
    assert!(!prompt.contains("You are TestBot"));
}

#[test]
fn test_prompt_builder_without_skills() {
    let context = create_test_context();
    let builder = PromptBuilder::new().with_skill_list(false);
    let prompt = builder.build(&context);
    assert!(!prompt.contains("You have access to the following tools"));
}

#[test]
fn test_prompt_builder_tools() {
    let context = create_test_context();
    let builder = PromptBuilder::new();
    let tools = builder.build_tools(&context);
    assert_eq!(tools.len(), 2);
    assert_eq!(tools[0].function.as_ref().unwrap().name, "search");
    assert_eq!(tools[1].function.as_ref().unwrap().name, "calculate");
}

#[test]
fn test_prompt_builder_no_skills() {
    let context = AgentContext::new(
        "agent-1".to_string(),
        "TestBot".to_string(),
        "openai".to_string(),
        "gpt-4".to_string(),
    );
    let builder = PromptBuilder::new();
    let tools = builder.build_tools(&context);
    assert!(tools.is_empty());
}

#[test]
fn test_prompt_builder_skill_descriptions() {
    let context = AgentContext::new(
        "agent-1".to_string(),
        "TestBot".to_string(),
        "openai".to_string(),
        "gpt-4".to_string(),
    )
    .with_skills(vec![
        SkillInfo {
            id: "skill1".to_string(),
            name: "Skill One".to_string(),
            description: "Description for skill 1".to_string(),
            enabled: true,
        },
        SkillInfo {
            id: "skill2".to_string(),
            name: "Skill Two".to_string(),
            description: String::new(),
            enabled: true,
        },
    ]);
    let builder = PromptBuilder::new();
    let tools = builder.build_tools(&context);
    assert_eq!(
        tools[0].function.as_ref().unwrap().description,
        "Description for skill 1"
    );
    assert_eq!(
        tools[1].function.as_ref().unwrap().description,
        "Execute the Skill Two skill"
    );
}

#[test]
fn test_prompt_builder_with_system_context() {
    let context = create_test_context();
    let section = render_system_context(
        "2024-01-01 08:00:00 +08:00",
        Some("Shanghai, China (31.2304, 121.4737)"),
        "Asia/Shanghai",
    );
    let builder = PromptBuilder::new().set_system_context(section);
    let prompt = builder.build(&context);
    assert!(prompt.contains("Current date and time"));
    assert!(prompt.contains("User location: Shanghai, China"));
    assert!(prompt.contains("Timezone: Asia/Shanghai"));
}

#[test]
fn test_prompt_builder_without_system_context() {
    let context = create_test_context();
    let builder = PromptBuilder::new().with_system_context(false);
    let prompt = builder.build(&context);
    assert!(!prompt.contains("System Context"));
    assert!(!prompt.contains("Current date and time"));
}

#[test]
fn system_context_section_text() {
    let with_location = render_system_context("T", Some("Paris, France"), "Europe/Paris");
    assert_eq!(
        with_location,
        "## System Context\n\nCurrent date and time: T\nUser location: Paris, France\nTimezone: Europe/Paris\n"
    );
    let without = render_system_context("T", None, "UTC");
    assert_eq!(without, "## System Context\n\nCurrent date and time: T\nTimezone: UTC\n");
}

#[test]
fn system_context_is_dropped_when_switched_off() {
    let context = create_test_context();
    let section = render_system_context("T", None, "UTC");
    let on = PromptBuilder::new().set_system_context(section.clone()).build(&context);
    assert!(on.starts_with("## System Context"));
    let off = PromptBuilder::new()
        .set_system_context(section)
        .with_system_context(false)
        .build(&context);
    assert!(!off.contains("System Context"));
}

#[test]
fn prompt_builder_base_prompt_only() {
    let context = AgentContext::new(
        "agent-1".to_string(),
        "TestBot".to_string(),
        "openai".to_string(),
        "gpt-4".to_string(),
    );
    let prompt = PromptBuilder::new()
        .with_agent_info(false)
        .with_base_prompt("Base.".to_string())
        .build(&context);
    assert_eq!(prompt, "Base.");
    let with_own = create_test_context();
    let prompt = PromptBuilder::new()
        .with_agent_info(false)
        .with_skill_list(false)
        .with_base_prompt("Base.".to_string())
        .build(&with_own);
    assert_eq!(prompt, "You are a test assistant.");
}

#[test]
fn local_time_in_known_and_unknown_zones() {
    assert_eq!(
        fae_agent::prompts::local_time_text(0, 0, "UTC").as_deref(),
        Some("1970-01-01 00:00:00 +00:00")
    );
    assert_eq!(
        fae_agent::prompts::local_time_text(0, 0, "Asia/Tokyo").as_deref(),
        Some("1970-01-01 09:00:00 +09:00")
    );
    assert_eq!(
        fae_agent::prompts::local_time_text(86_400, 0, "Nowhere/Atlantis").as_deref(),
        Some("1970-01-02 00:00:00 +00:00")
    );
}
