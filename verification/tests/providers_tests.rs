use fae_agent::providers::{ProviderConfig, ProviderResolver, ProviderSettings};

fn sample_providers() -> Vec<ProviderConfig> {
    vec![
        ProviderConfig {
            id: "test-1".to_string(),
            name: "Test Provider 1".to_string(),
            provider_type: "openai".to_string(),
            api_key: "test-key-1".to_string(),
            base_url: "https://api.openai.com/v1".to_string(),
            model_id: "gpt-4".to_string(),
            enabled: true,
        },
        ProviderConfig {
            id: "test-2".to_string(),
            name: "Test Provider 2".to_string(),
            provider_type: "ollama".to_string(),
            api_key: "".to_string(),
            base_url: "http://127.0.0.1:11434".to_string(),
            model_id: "llama2".to_string(),
            enabled: true,
        },
    ]
}

fn sample_settings() -> ProviderSettings {
    ProviderSettings {
        provider_configs: sample_providers(),
        default_provider: "ollama".to_string(),
    }
}

#[test]
fn test_resolve_provider_default_behavior() {
    let settings = sample_settings();

    let resolved = ProviderResolver::resolve_provider(None, &settings, None);
    assert_eq!(resolved, "ollama");

    let resolved = ProviderResolver::resolve_provider(Some("openai".to_string()), &settings, None);
    assert_eq!(resolved, "openai");
}

#[test]
fn test_resolve_provider_with_config_id() {
    let settings = sample_settings();

    let resolved = ProviderResolver::resolve_provider(
        Some("openai".to_string()),
        &settings,
        Some("test-2".to_string()),
    );
    assert_eq!(resolved, "ollama");
}

#[test]
fn test_resolve_provider_config_id_priority_over_pref() {
    let settings = sample_settings();

    let resolved = ProviderResolver::resolve_provider(
        Some("google".to_string()),
        &settings,
        Some("test-1".to_string()),
    );
    assert_eq!(resolved, "openai");
}

#[test]
fn test_resolve_provider_returns_pref_if_no_valid_config_id() {
    let settings = sample_settings();

    let resolved = ProviderResolver::resolve_provider(
        Some("openai".to_string()),
        &settings,
        Some("nonexistent-id".to_string()),
    );
    assert_eq!(resolved, "openai");
}

#[test]
fn test_resolve_provider_defaults() {
    let settings = ProviderSettings {
        provider_configs: vec![],
        default_provider: "google".to_string(),
    };

    let resolved = ProviderResolver::resolve_provider(None, &settings, None);
    assert_eq!(resolved, "google");
}

#[test]
fn resolve_provider_falls_back_to_default_without_preference() {
    let settings = sample_settings();
    let resolved = ProviderResolver::resolve_provider(None, &settings, Some("nope".to_string()));
    assert_eq!(resolved, "ollama");
}

#[test]
fn provider_defaults() {
    let o = ProviderConfig::ollama_default();
    assert_eq!(o.id, "default-ollama");
    assert_eq!(o.base_url, "http://127.0.0.1:11434");
    assert_eq!(o.model_id, "qwen3:8b");
    assert_eq!(ProviderConfig::openai_default().model_id, "gpt-4o-mini");
    assert_eq!(ProviderConfig::google_default().provider_type, "google");
    let a = ProviderConfig::alibaba_default();
    assert_eq!(a.base_url, "https://dashscope.aliyuncs.com/compatible-mode/v1");
    assert_eq!(a.model_id, "qwen-turbo");
    assert!(a.enabled);
}

#[test]
fn legacy_settings_fill_defaults() {
    let s = ProviderResolver::legacy_settings(None, Some("sk".to_string()), None, None, Some("http://g".to_string()));
    assert_eq!(s.default_provider, "ollama");
    assert_eq!(s.provider_configs.len(), 3);
    assert_eq!(s.provider_configs[0].base_url, "http://127.0.0.1:11434");
    assert_eq!(s.provider_configs[1].api_key, "sk");
    assert_eq!(s.provider_configs[1].base_url, "https://api.openai.com/v1");
    assert_eq!(s.provider_configs[2].base_url, "http://g");
    assert_eq!(s.provider_configs[2].id, "legacy-google");
}

#[test]
fn settings_default_provider_is_first_type() {
    let s = fae_agent::providers::to_settings(vec![ProviderConfig::google_default(), ProviderConfig::ollama_default()]);
    assert_eq!(s.default_provider, "google");
    assert_eq!(fae_agent::providers::to_settings(vec![]).default_provider, "ollama");
    let configs = sample_providers();
    let found = fae_agent::providers::find_config(&configs, "test-2").unwrap();
    assert_eq!(found.name, "Test Provider 2");
    assert!(fae_agent::providers::find_config(&configs, "test-3").is_none());
}
