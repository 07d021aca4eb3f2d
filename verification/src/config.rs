//! Application configuration.

use vstd::prelude::*;

verus! {

/// The whole configuration.
#[derive(Debug, Clone)]
pub struct AppConfig {
    pub general: GeneralConfig,
    pub privacy: PrivacyConfig,
    pub llm: LlmConfig,
    pub overlay: OverlayConfig,
}

#[derive(Debug, Clone)]
pub struct GeneralConfig {
    pub enabled: bool,
    pub suggestion_delay_ms: u64,
    pub max_text_buffer_chars: usize,
}

#[derive(Debug, Clone)]
pub struct PrivacyConfig {
    pub blocked_apps: Vec<String>,
    pub pause_on_password_fields: bool,
    pub allow_cloud_llm: bool,
}

#[derive(Debug, Clone)]
pub struct LlmConfig {
    pub provider: String,
    pub model: String,
    pub ollama_host: String,
    /// Whether the selected model supports vision (multimodal).
    /// When false, screenshots are skipped and only typed text is sent.
    pub model_supports_vision: bool,
}

#[derive(Debug, Clone)]
pub struct OverlayConfig {
    pub theme: String,
    pub accept_key: String,
    pub dismiss_key: String,
}

/// Whether a configuration is a fresh install: no model chosen yet.
pub open spec fn first_launch(config: AppConfig) -> bool {
    config.llm.model@.len() == 0
}

impl AppConfig {
    /// Whether this is a fresh install (no model selected yet).
    pub fn is_first_launch(&self) -> (r: bool)
        ensures
            r == first_launch(*self),
    {
        self.llm.model.as_str().is_empty()
    }
}

impl Default for AppConfig {
    fn default() -> (c: Self)
        ensures
            c.general.enabled,
            c.general.suggestion_delay_ms == 1500,
            c.general.max_text_buffer_chars == 200,
            c.privacy.blocked_apps@.map_values(|s: String| s@) == seq!["1Password"@, "Bitwarden"@, "KeePassXC"@],
            c.privacy.pause_on_password_fields,
            !c.privacy.allow_cloud_llm,
            c.llm.provider@ == "ollama"@,
            c.llm.model@ == Seq::<char>::empty(),
            c.llm.ollama_host@ == "http://127.0.0.1:11435"@,
            !c.llm.model_supports_vision,
            c.overlay.theme@ == "system"@,
            c.overlay.accept_key@ == "Tab"@,
            c.overlay.dismiss_key@ == "Escape"@,
    {
        let mut blocked_apps: Vec<String> = Vec::new();
        blocked_apps.push("1Password".to_owned());
        blocked_apps.push("Bitwarden".to_owned());
        blocked_apps.push("KeePassXC".to_owned());
        assert(blocked_apps@.map_values(|s: String| s@) =~= seq!["1Password"@, "Bitwarden"@, "KeePassXC"@]);
        AppConfig {
            general: GeneralConfig { enabled: true, suggestion_delay_ms: 1500, max_text_buffer_chars: 200 },
            privacy: PrivacyConfig { blocked_apps, pause_on_password_fields: true, allow_cloud_llm: false },
            llm: LlmConfig {
                provider: "ollama".to_owned(),
                model: String::new(),
                ollama_host: "http://127.0.0.1:11435".to_owned(),
                model_supports_vision: false,
            },
            overlay: OverlayConfig {
                theme: "system".to_owned(),
                accept_key: "Tab".to_owned(),
                dismiss_key: "Escape".to_owned(),
            },
        }
    }
}

} // verus!
