use stt_client::error::SttError;
use stt_client::settings::MapEntry;
use stt_client::settings::SettingsSnapshot;
use stt_client::settings::SttApiProvider;
use stt_client::settings::SttApiSettings;
use stt_client::settings::StringMap;
use stt_client::settings::set_stt_api_base_url;
use stt_client::settings::set_stt_api_enabled;
use stt_client::settings::set_stt_api_key;
use stt_client::settings::set_stt_api_model;
use stt_client::settings::set_stt_api_provider;

fn provider(id: &str, label: &str, base_url: &str) -> SttApiProvider {
    SttApiProvider { id: id.to_string(), label: label.to_string(), base_url: base_url.to_string() }
}

fn snapshot() -> SettingsSnapshot {
    SettingsSnapshot {
        stt_api: SttApiSettings {
            enabled: true,
            provider_id: "openai".to_string(),
            providers: vec![
                provider("openai", "OpenAI", "https://api.openai.com/v1"),
                provider("custom", "Custom", "http://localhost:8000/v1"),
            ],
            api_keys: StringMap::new(),
            models: StringMap::new(),
        },
        selected_language: "auto".to_string(),
    }
}

#[test]
fn enabled_flag_set_and_cleared() {
    let mut s = snapshot();
    set_stt_api_enabled(&mut s, false);
    assert!(!s.stt_api.enabled);
    set_stt_api_enabled(&mut s, true);
    assert!(s.stt_api.enabled);
    assert_eq!(s.stt_api.provider_id, "openai");
}

#[test]
fn set_provider_to_known_id_succeeds() {
    let mut s = snapshot();
    assert!(set_stt_api_provider(&mut s, "custom".to_string()).is_ok());
    assert_eq!(s.stt_api.provider_id, "custom");
}

#[test]
fn set_provider_to_absent_id_rejected_without_change() {
    let mut s = snapshot();
    let r = set_stt_api_provider(&mut s, "nope".to_string());
    let e = r.err().expect("expected rejection");
    assert_eq!(e.message(), "Provider 'nope' not found");
    assert_eq!(s.stt_api.provider_id, "openai");
}

#[test]
fn set_base_url_on_custom_provider_succeeds() {
    let mut s = snapshot();
    let r = set_stt_api_base_url(&mut s, "custom".to_string(), "http://box:9000".to_string());
    assert!(r.is_ok());
    assert_eq!(s.stt_api.providers[1].base_url, "http://box:9000");
    assert_eq!(s.stt_api.providers[0].base_url, "https://api.openai.com/v1");
}

#[test]
fn set_base_url_on_fixed_provider_rejected_naming_label() {
    let mut s = snapshot();
    let r = set_stt_api_base_url(&mut s, "openai".to_string(), "http://evil".to_string());
    let e = r.err().expect("expected rejection");
    assert!(matches!(e, SttError::BaseUrlEditNotAllowed { .. }));
    assert_eq!(e.message(), "Provider 'OpenAI' does not allow editing the base URL");
    assert_eq!(s.stt_api.providers[0].base_url, "https://api.openai.com/v1");
}

#[test]
fn set_base_url_on_absent_provider_rejected() {
    let mut s = snapshot();
    let r = set_stt_api_base_url(&mut s, "ghost".to_string(), "http://x".to_string());
    let e = r.err().expect("expected rejection");
    assert_eq!(e.message(), "Provider 'ghost' not found");
}

#[test]
fn set_key_for_known_provider_stored() {
    let mut s = snapshot();
    assert!(set_stt_api_key(&mut s, "openai".to_string(), "sk-123".to_string()).is_ok());
    let got = s.stt_api.api_keys.get(&"openai".to_string());
    assert_eq!(got.map(|v| v.as_str()), Some("sk-123"));
}

#[test]
fn set_key_for_absent_provider_rejected_without_change() {
    let mut s = snapshot();
    let r = set_stt_api_key(&mut s, "ghost".to_string(), "sk-123".to_string());
    assert!(matches!(r, Err(SttError::ProviderNotFound { .. })));
    assert_eq!(s.stt_api.api_keys.entries.len(), 0);
}

#[test]
fn set_model_for_known_provider_stored() {
    let mut s = snapshot();
    assert!(set_stt_api_model(&mut s, "custom".to_string(), "tiny".to_string()).is_ok());
    assert_eq!(s.stt_api.models.get(&"custom".to_string()).map(|v| v.as_str()), Some("tiny"));
}

#[test]
fn set_model_for_absent_provider_rejected() {
    let mut s = snapshot();
    let r = set_stt_api_model(&mut s, "ghost".to_string(), "tiny".to_string());
    assert!(matches!(r, Err(SttError::ProviderNotFound { .. })));
}

#[test]
fn string_map_insert_replaces_in_place() {
    let mut m = StringMap::new();
    m.insert("a".to_string(), "1".to_string());
    m.insert("b".to_string(), "2".to_string());
    m.insert("a".to_string(), "3".to_string());
    assert_eq!(m.entries.len(), 2);
    assert_eq!(m.get(&"a".to_string()).map(|v| v.as_str()), Some("3"));
    assert_eq!(m.get(&"b".to_string()).map(|v| v.as_str()), Some("2"));
    assert!(m.get(&"c".to_string()).is_none());
}

#[test]
fn string_map_clone_keeps_entries() {
    let mut m = StringMap::new();
    m.insert("a".to_string(), "1".to_string());
    let c = m.clone();
    assert_eq!(c.get(&"a".to_string()).map(|v| v.as_str()), Some("1"));
    let e = MapEntry { key: "k".to_string(), value: "v".to_string() };
    let e2 = e.clone();
    assert_eq!(e2.key, "k");
    assert_eq!(e2.value, "v");
}
