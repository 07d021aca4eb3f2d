use whisp_core::commands::{get_status, is_vision_model, setup_model, toggle_pause, SetupModelRequest};
use whisp_core::config::AppConfig;

#[test]
fn default_config_values() {
    let c = AppConfig::default();
    assert!(c.general.enabled);
    assert_eq!(c.general.suggestion_delay_ms, 1500);
    assert_eq!(c.general.max_text_buffer_chars, 200);
    assert_eq!(c.privacy.blocked_apps, vec!["1Password", "Bitwarden", "KeePassXC"]);
    assert!(c.privacy.pause_on_password_fields);
    assert!(!c.privacy.allow_cloud_llm);
    assert_eq!(c.llm.provider, "ollama");
    assert_eq!(c.llm.model, "");
    assert_eq!(c.llm.ollama_host, "http://127.0.0.1:11435");
    assert!(!c.llm.model_supports_vision);
    assert_eq!(c.overlay.theme, "system");
    assert_eq!(c.overlay.accept_key, "Tab");
    assert_eq!(c.overlay.dismiss_key, "Escape");
}

#[test]
fn fresh_install_is_first_launch() {
    assert!(AppConfig::default().is_first_launch());
}

#[test]
fn choosing_a_model_ends_first_launch() {
    let mut c = AppConfig::default();
    let msg = setup_model(SetupModelRequest { model: "qwen3:0.6b".to_string() }, &mut c);
    assert!(!c.is_first_launch());
    assert_eq!(c.llm.model, "qwen3:0.6b");
    assert!(!c.llm.model_supports_vision);
    assert_eq!(msg, "Model set to: qwen3:0.6b [text-only (screenshot context disabled)]");
    assert_eq!(c.llm.provider, "ollama");
    assert_eq!(c.general.suggestion_delay_ms, 1500);
}

#[test]
fn vision_model_is_detected() {
    let mut c = AppConfig::default();
    let msg = setup_model(SetupModelRequest { model: "moondream:1.8b".to_string() }, &mut c);
    assert!(c.llm.model_supports_vision);
    assert_eq!(msg, "Model set to: moondream:1.8b [vision (screenshot context enabled)]");
}

#[test]
fn vision_detection_ignores_case() {
    assert!(is_vision_model("LLaVA:7b"));
    assert!(is_vision_model("llava-phi3"));
    assert!(is_vision_model("BakLLaVA"));
    assert!(is_vision_model("minicpm-v:8b"));
    assert!(is_vision_model("internvl2"));
    assert!(is_vision_model("cogvlm2"));
    assert!(!is_vision_model("qwen3:1.7b"));
    assert!(!is_vision_model(""));
}

#[test]
fn status_reflects_config() {
    let mut c = AppConfig::default();
    c.llm.model = "llava:7b".to_string();
    let s = get_status(&c);
    assert!(s.running);
    assert!(!s.paused);
    assert_eq!(s.backend, "ollama");
    assert_eq!(s.model, "llava:7b");
}

#[test]
fn toggle_pause_reports_not_paused() {
    assert_eq!(toggle_pause(), Ok(false));
}
