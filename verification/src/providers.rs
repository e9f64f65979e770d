//! Model providers: their configurations, defaults, and which one a request goes to.
use vstd::prelude::*;
use vstd::string::*;
use crate::text::{owned, str_eq};

verus! {

broadcast use vstd::string::group_string_axioms;

/// How to reach one model provider.
pub struct ProviderConfig {
    pub id: String,
    pub name: String,
    pub provider_type: String,
    pub api_key: String,
    pub base_url: String,
    pub model_id: String,
    pub enabled: bool,
}

/// A provider configuration as the settings page sends it.
pub struct ProviderConfigRequest {
    pub id: String,
    pub name: String,
    pub provider_type: String,
    pub api_key: String,
    pub base_url: String,
    pub model_id: String,
    pub enabled: bool,
}

/// The provider configurations as the settings page sends them.
pub struct UpdateProviderSettingsRequest {
    pub provider_configs: Vec<ProviderConfigRequest>,
}

/// All provider configurations, and the provider used when nothing else decides.
pub struct ProviderSettings {
    pub provider_configs: Vec<ProviderConfig>,
    pub default_provider: String,
}

/// The plain content of a `ProviderConfig`.
pub struct ConfigView {
    pub id: Seq<char>,
    pub name: Seq<char>,
    pub provider_type: Seq<char>,
    pub api_key: Seq<char>,
    pub base_url: Seq<char>,
    pub model_id: Seq<char>,
    pub enabled: bool,
}

impl View for ProviderConfig {
    type V = ConfigView;

    open spec fn view(&self) -> ConfigView {
        ConfigView {
            id: self.id@,
            name: self.name@,
            provider_type: self.provider_type@,
            api_key: self.api_key@,
            base_url: self.base_url@,
            model_id: self.model_id@,
            enabled: self.enabled,
        }
    }
}

/// The views of a list of configurations.
pub open spec fn configs_view(v: Seq<ProviderConfig>) -> Seq<ConfigView> {
    v.map_values(|c: ProviderConfig| c@)
}

/// An enabled configuration with the given fields.
pub open spec fn config_of(
    id: Seq<char>,
    name: Seq<char>,
    provider_type: Seq<char>,
    api_key: Seq<char>,
    base_url: Seq<char>,
    model_id: Seq<char>,
) -> ConfigView {
    ConfigView { id, name, provider_type, api_key, base_url, model_id, enabled: true }
}

/// The index of the first configuration with the given id.
pub open spec fn first_with_id(s: Seq<ConfigView>, id: Seq<char>) -> Option<int>
    decreases s.len(),
{
    if s.len() == 0 {
        None
    } else if s[0].id == id {
        Some(0)
    } else {
        match first_with_id(s.drop_first(), id) {
            Some(i) => Some(i + 1),
            None => None,
        }
    }
}

/// Walking past configurations with another id does not change the first match.
pub proof fn lemma_first_with_id_skip(s: Seq<ConfigView>, i: int, id: Seq<char>)
    requires
        0 <= i <= s.len(),
        forall|j: int| 0 <= j < i ==> s[j].id != id,
    ensures
        first_with_id(s, id) == match first_with_id(s.subrange(i, s.len() as int), id) {
            Some(k) => Some(k + i),
            None => None::<int>,
        },
    decreases i,
{
    if i > 0 {
        lemma_first_with_id_skip(s.drop_first(), i - 1, id);
        assert(s.drop_first().subrange(i - 1, s.drop_first().len() as int) == s.subrange(
            i,
            s.len() as int,
        ));
    } else {
        assert(s.subrange(0, s.len() as int) == s);
    }
}

/// The provider type a request goes to: that of the first configuration with the requested
/// id; else the preferred provider; else the default one.
pub open spec fn resolved_provider(
    preferred: Option<Seq<char>>,
    configs: Seq<ConfigView>,
    default_provider: Seq<char>,
    config_id: Option<Seq<char>>,
) -> Seq<char> {
    match config_id {
        Some(id) if first_with_id(configs, id) is Some => configs[first_with_id(
            configs,
            id,
        )->0].provider_type,
        _ => match preferred {
            Some(p) => p,
            None => default_provider,
        },
    }
}

/// The provider used when nothing else decides: the type of the first configuration,
/// else `ollama`.
pub open spec fn default_provider_of(configs: Seq<ConfigView>) -> Seq<char> {
    if configs.len() > 0 {
        configs[0].provider_type
    } else {
        "ollama"@
    }
}

/// A copy of a configuration.
pub fn copy_config(c: &ProviderConfig) -> (r: ProviderConfig)
    ensures
        r@ == c@,
{
    ProviderConfig {
        id: c.id.clone(),
        name: c.name.clone(),
        provider_type: c.provider_type.clone(),
        api_key: c.api_key.clone(),
        base_url: c.base_url.clone(),
        model_id: c.model_id.clone(),
        enabled: c.enabled,
    }
}

/// The first configuration with the given id.
pub fn find_config<'a>(configs: &'a [ProviderConfig], id: &str) -> (r: Option<&'a ProviderConfig>)
    ensures
        r is Some == first_with_id(configs_view(configs@), id@) is Some,
        r matches Some(c) ==> c@ == configs_view(configs@)[first_with_id(configs_view(configs@), id@)->0],
{
    let ghost s = configs_view(configs@);
    let mut i: usize = 0;
    while i < configs.len()
        invariant
            i <= configs@.len(),
            s == configs_view(configs@),
            forall|j: int| 0 <= j < i ==> s[j].id != id@,
        decreases configs.len() - i,
    {
        if str_eq(configs[i].id.as_str(), id) {
            proof {
                lemma_first_with_id_skip(s, i as int, id@);
            }
            return Some(&configs[i]);
        }
        i = i + 1;
    }
    proof {
        lemma_first_with_id_skip(s, i as int, id@);
    }
    None
}

/// The settings made of `provider_configs`; the default provider is the type of the first
/// configuration, else `ollama`.
pub fn to_settings(provider_configs: Vec<ProviderConfig>) -> (r: ProviderSettings)
    ensures
        r.provider_configs == provider_configs,
        r.default_provider@ == default_provider_of(configs_view(provider_configs@)),
{
    let default_provider = if provider_configs.len() > 0 {
        provider_configs[0].provider_type.clone()
    } else {
        owned("ollama")
    };
    ProviderSettings { provider_configs, default_provider }
}

impl ProviderConfig {
    /// The local Ollama server.
    pub fn ollama_default() -> (r: Self)
        ensures
            r@ == config_of(
                "default-ollama"@,
                "Local Ollama"@,
                "ollama"@,
                ""@,
                "http://127.0.0.1:11434"@,
                "qwen3:8b"@,
            ),
    {
        ProviderConfig {
            id: owned("default-ollama"),
            name: owned("Local Ollama"),
            provider_type: owned("ollama"),
            api_key: owned(""),
            base_url: owned("http://127.0.0.1:11434"),
            model_id: owned("qwen3:8b"),
            enabled: true,
        }
    }

    /// OpenAI's API.
    pub fn openai_default() -> (r: Self)
        ensures
            r@ == config_of(
                "default-openai"@,
                "OpenAI Default"@,
                "openai"@,
                ""@,
                "https://api.openai.com/v1"@,
                "gpt-4o-mini"@,
            ),
    {
        ProviderConfig {
            id: owned("default-openai"),
            name: owned("OpenAI Default"),
            provider_type: owned("openai"),
            api_key: owned(""),
            base_url: owned("https://api.openai.com/v1"),
            model_id: owned("gpt-4o-mini"),
            enabled: true,
        }
    }

    /// Google's Gemini API.
    pub fn google_default() -> (r: Self)
        ensures
            r@ == config_of(
                "default-google"@,
                "Google Gemini"@,
                "google"@,
                ""@,
                "https://generativelanguage.googleapis.com/v1beta"@,
                "gemini-2.5-flash"@,
            ),
    {
        ProviderConfig {
            id: owned("default-google"),
            name: owned("Google Gemini"),
            provider_type: owned("google"),
            api_key: owned(""),
            base_url: owned("https://generativelanguage.googleapis.com/v1beta"),
            model_id: owned("gemini-2.5-flash"),
            enabled: true,
        }
    }

    /// Alibaba's Qwen API.
    pub fn alibaba_default() -> (r: Self)
        ensures
            r@ == config_of(
                "default-alibaba"@,
                "Alibaba Qwen"@,
                "alibaba"@,
                ""@,
                "https://dashscope.aliyuncs.com/compatible-mode/v1"@,
                "qwen-turbo"@,
            ),
    {
        ProviderConfig {
            id: owned("default-alibaba"),
            name: owned("Alibaba Qwen"),
            provider_type: owned("alibaba"),
            api_key: owned(""),
            base_url: owned("https://dashscope.aliyuncs.com/compatible-mode/v1"),
            model_id: owned("qwen-turbo"),
            enabled: true,
        }
    }
}

/// The configurations made from the older one-setting-per-key form; absent settings take
/// their defaults.
pub open spec fn legacy_configs(
    ollama_base_url: Option<Seq<char>>,
    openai_api_key: Option<Seq<char>>,
    openai_base_url: Option<Seq<char>>,
    google_api_key: Option<Seq<char>>,
    google_base_url: Option<Seq<char>>,
) -> Seq<ConfigView> {
    seq![
        config_of(
            "legacy-ollama"@,
            "Ollama Local"@,
            "ollama"@,
            ""@,
            or_default(ollama_base_url, "http://127.0.0.1:11434"@),
            ""@,
        ),
        config_of(
            "legacy-openai"@,
            "OpenAI Default"@,
            "openai"@,
            or_default(openai_api_key, ""@),
            or_default(openai_base_url, "https://api.openai.com/v1"@),
            ""@,
        ),
        config_of(
            "legacy-google"@,
            "Google Default"@,
            "google"@,
            or_default(google_api_key, ""@),
            or_default(google_base_url, "https://generativelanguage.googleapis.com/v1beta"@),
            ""@,
        ),
    ]
}

/// The setting, or `d` when it is absent.
pub open spec fn or_default(o: Option<Seq<char>>, d: Seq<char>) -> Seq<char> {
    match o {
        Some(s) => s,
        None => d,
    }
}

/// The plain form of an optional string.
pub open spec fn opt_str(o: Option<String>) -> Option<Seq<char>> {
    match o {
        Some(s) => Some(s@),
        None => None,
    }
}

/// The setting, or `d` when it is absent.
fn setting_or(o: Option<String>, d: &str) -> (r: String)
    ensures
        r@ == or_default(opt_str(o), d@),
{
    match o {
        Some(s) => s,
        None => owned(d),
    }
}

/// Resolves which provider handles requests.
pub struct ProviderResolver;

impl ProviderResolver {
    /// The provider type a request goes to: that of the first configuration whose id is
    /// `provider_config_id`; else `preferred`; else the settings' default provider.
    pub fn resolve_provider(
        preferred: Option<String>,
        settings: &ProviderSettings,
        provider_config_id: Option<String>,
    ) -> (r: String)
        ensures
            r@ == resolved_provider(
                opt_str(preferred),
                configs_view(settings.provider_configs@),
                settings.default_provider@,
                opt_str(provider_config_id),
            ),
    {
        if let Some(config_id) = &provider_config_id {
            if let Some(config) = find_config(settings.provider_configs.as_slice(), config_id.as_str()) {
                return config.provider_type.clone();
            }
        }
        match preferred {
            Some(p) => p,
            None => settings.default_provider.clone(),
        }
    }

    /// The settings made from the older one-setting-per-key form, given the stored values
    /// (absent ones take their defaults).
    pub fn legacy_settings(
        ollama_base_url: Option<String>,
        openai_api_key: Option<String>,
        openai_base_url: Option<String>,
        google_api_key: Option<String>,
        google_base_url: Option<String>,
    ) -> (r: ProviderSettings)
        ensures
            configs_view(r.provider_configs@) == legacy_configs(
                opt_str(ollama_base_url),
                opt_str(openai_api_key),
                opt_str(openai_base_url),
                opt_str(google_api_key),
                opt_str(google_base_url),
            ),
            r.default_provider@ == "ollama"@,
    {
        let ghost expected = legacy_configs(
            opt_str(ollama_base_url),
            opt_str(openai_api_key),
            opt_str(openai_base_url),
            opt_str(google_api_key),
            opt_str(google_base_url),
        );
        let mut configs: Vec<ProviderConfig> = Vec::new();
        configs.push(
            ProviderConfig {
                id: owned("legacy-ollama"),
                name: owned("Ollama Local"),
                provider_type: owned("ollama"),
                api_key: owned(""),
                base_url: setting_or(ollama_base_url, "http://127.0.0.1:11434"),
                model_id: owned(""),
                enabled: true,
            },
        );
        configs.push(
            ProviderConfig {
                id: owned("legacy-openai"),
                name: owned("OpenAI Default"),
                provider_type: owned("openai"),
                api_key: setting_or(openai_api_key, ""),
                base_url: setting_or(openai_base_url, "https://api.openai.com/v1"),
                model_id: owned(""),
                enabled: true,
            },
        );
        configs.push(
            ProviderConfig {
                id: owned("legacy-google"),
                name: owned("Google Default"),
                provider_type: owned("google"),
                api_key: setting_or(google_api_key, ""),
                base_url: setting_or(
                    google_base_url,
                    "https://generativelanguage.googleapis.com/v1beta",
                ),
                model_id: owned(""),
                enabled: true,
            },
        );
        assert(configs_view(configs@) =~= expected);
        let r = to_settings(configs);
        r
    }
}

/// Provider resolution: a configuration named by id, when one has that id, decides;
/// otherwise the preferred provider, when given, decides; otherwise the default one.
pub proof fn lemma_resolution_order(
    preferred: Option<Seq<char>>,
    configs: Seq<ConfigView>,
    default_provider: Seq<char>,
    config_id: Option<Seq<char>>,
)
    ensures
        (config_id matches Some(id) && first_with_id(configs, id) is Some) ==> resolved_provider(
            preferred,
            configs,
            default_provider,
            config_id,
        ) == configs[first_with_id(configs, config_id->0)->0].provider_type,
        !(config_id matches Some(id) && first_with_id(configs, id) is Some) ==> resolved_provider(
            preferred,
            configs,
            default_provider,
            config_id,
        ) == match preferred {
            Some(p) => p,
            None => default_provider,
        },
{
}

} // verus!
