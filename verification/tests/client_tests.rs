use stt_client::client::build_transcription_request;
use stt_client::client::process_response;
use stt_client::client::resolve_stt_provider;
use stt_client::client::strip_trailing_slashes;
use stt_client::client::transcribe_with_stt_api;
use stt_client::error::SttError;
use stt_client::settings::SettingsSnapshot;
use stt_client::settings::SttApiProvider;
use stt_client::settings::SttApiSettings;
use stt_client::settings::StringMap;
use stt_client::settings::set_stt_api_key;
use stt_client::settings::set_stt_api_model;

fn provider(id: &str, label: &str, base_url: &str) -> SttApiProvider {
    SttApiProvider { id: id.to_string(), label: label.to_string(), base_url: base_url.to_string() }
}

fn snapshot(enabled: bool, provider_id: &str, language: &str) -> SettingsSnapshot {
    SettingsSnapshot {
        stt_api: SttApiSettings {
            enabled,
            provider_id: provider_id.to_string(),
            providers: vec![
                provider("openai", "OpenAI", "https://api.openai.com/v1/"),
                provider("custom", "Custom", "http://localhost:8000/v1"),
            ],
            api_keys: StringMap::new(),
            models: StringMap::new(),
        },
        selected_language: language.to_string(),
    }
}

#[test]
fn url_joins_after_stripping_trailing_slashes() {
    assert_eq!(strip_trailing_slashes("http://x///"), "http://x");
    assert_eq!(strip_trailing_slashes("http://x"), "http://x");
    assert_eq!(strip_trailing_slashes(""), "");
    let p = provider("custom", "Custom", "http://x///");
    let r = build_transcription_request(&p, String::new(), "m", &vec![], None);
    assert_eq!(r.url, "http://x/audio/transcriptions");
}

#[test]
fn language_auto_or_empty_is_omitted() {
    let p = provider("custom", "Custom", "http://x");
    let r = build_transcription_request(&p, String::new(), "m", &vec![], Some("auto".to_string()));
    assert!(r.language.is_none());
    let r = build_transcription_request(&p, String::new(), "m", &vec![], Some(String::new()));
    assert!(r.language.is_none());
    let r = build_transcription_request(&p, String::new(), "m", &vec![], None);
    assert!(r.language.is_none());
}

#[test]
fn language_other_value_is_sent_verbatim() {
    let p = provider("custom", "Custom", "http://x");
    let r = build_transcription_request(&p, String::new(), "m", &vec![], Some("en".to_string()));
    assert_eq!(r.language.as_deref(), Some("en"));
}

#[test]
fn blank_api_key_sends_no_authorization() {
    let p = provider("custom", "Custom", "http://x");
    let r = build_transcription_request(&p, String::new(), "m", &vec![], None);
    assert!(r.authorization.is_none());
    let r = build_transcription_request(&p, " \t\n ".to_string(), "m", &vec![], None);
    assert!(r.authorization.is_none());
}

#[test]
fn non_blank_api_key_sends_exact_bearer_value() {
    let p = provider("custom", "Custom", "http://x");
    let r = build_transcription_request(&p, "sk-1".to_string(), "m", &vec![], None);
    assert_eq!(r.authorization.as_deref(), Some("Bearer sk-1"));
    let r = build_transcription_request(&p, " sk-1 ".to_string(), "m", &vec![], None);
    assert_eq!(r.authorization.as_deref(), Some("Bearer  sk-1 "));
}

#[test]
fn fixed_fields_of_the_multipart_form() {
    let p = provider("custom", "Custom", "http://x");
    let r = build_transcription_request(&p, String::new(), "whisper-1", &vec![1, 2], None);
    assert_eq!(r.file_name, "audio.wav");
    assert_eq!(r.mime_type, "audio/wav");
    assert_eq!(r.model, "whisper-1");
    assert_eq!(r.response_format, "json");
    assert_eq!(r.file_bytes.len(), 48);
}

#[test]
fn http_500_fails_with_status_and_body_in_message() {
    let r = process_response(500, "server error".to_string());
    let e = r.err().expect("expected failure");
    assert!(matches!(e, SttError::HttpStatusError { status: 500, .. }));
    let msg = e.message();
    assert!(msg.contains("500"));
    assert!(msg.contains("server error"));
    assert_eq!(msg, "STT API error (500): server error");
}

#[test]
fn success_status_range_is_200_to_299() {
    let body = "{\"text\": \"ok\"}";
    assert!(process_response(200, body.to_string()).is_ok());
    assert!(process_response(299, body.to_string()).is_ok());
    assert!(process_response(300, body.to_string()).is_err());
    assert!(process_response(199, body.to_string()).is_err());
}

#[test]
fn http_200_returns_trimmed_text() {
    let r = process_response(200, "{\"text\": \"  hello world  \"}".to_string());
    assert_eq!(r.ok().as_deref(), Some("hello world"));
}

#[test]
fn whitespace_only_text_is_the_empty_transcription_failure() {
    let r = process_response(200, "{\"text\": \"   \"}".to_string());
    let e = r.err().expect("expected failure");
    assert!(matches!(e, SttError::EmptyTranscription));
    assert_eq!(e.message(), "STT API returned empty transcription");
}

#[test]
fn invalid_json_fails_with_parse_error_keeping_raw_body() {
    let r = process_response(200, "not json".to_string());
    let e = r.err().expect("expected failure");
    assert!(matches!(e, SttError::ParseError { .. }));
    assert!(e.message().starts_with("Failed to parse STT response: "));
    assert!(e.message().ends_with(". Body: not json"));
}

#[test]
fn missing_or_non_string_text_field_fails_as_parse_error() {
    assert!(matches!(
        process_response(200, "{}".to_string()),
        Err(SttError::ParseError { .. })
    ));
    assert!(matches!(
        process_response(200, "{\"text\": 3}".to_string()),
        Err(SttError::ParseError { .. })
    ));
    assert!(matches!(
        process_response(200, "[1, 2]".to_string()),
        Err(SttError::ParseError { .. })
    ));
}

#[test]
fn extra_response_fields_are_ignored() {
    let r = process_response(200, "{\"text\": \"hi\", \"duration\": 1.5}".to_string());
    assert_eq!(r.ok().as_deref(), Some("hi"));
}

#[test]
fn disabled_feature_is_rejected() {
    let s = snapshot(false, "openai", "auto");
    let r = transcribe_with_stt_api(&s, &vec![]);
    let e = r.err().expect("expected rejection");
    assert!(matches!(e, SttError::NotEnabled));
    assert_eq!(e.message(), "STT API is not enabled");
}

#[test]
fn unknown_active_provider_is_rejected() {
    let s = snapshot(true, "ghost", "auto");
    let r = transcribe_with_stt_api(&s, &vec![]);
    let e = r.err().expect("expected rejection");
    assert!(matches!(e, SttError::NoProviderConfigured));
    assert_eq!(e.message(), "No STT API provider configured");
}

#[test]
fn model_falls_back_to_default_when_absent() {
    let s = snapshot(true, "openai", "auto");
    let r = resolve_stt_provider(&s).ok().expect("expected resolution");
    assert_eq!(r.model, "whisper-1");
    assert_eq!(r.api_key, "");
    assert!(r.language.is_none());
    assert_eq!(r.provider.id, "openai");
}

#[test]
fn stored_model_and_key_are_used() {
    let mut s = snapshot(true, "custom", "fr");
    set_stt_api_key(&mut s, "custom".to_string(), "k9".to_string()).expect("known provider");
    set_stt_api_model(&mut s, "custom".to_string(), "tiny".to_string()).expect("known provider");
    let r = resolve_stt_provider(&s).ok().expect("expected resolution");
    assert_eq!(r.model, "tiny");
    assert_eq!(r.api_key, "k9");
    assert_eq!(r.language.as_deref(), Some("fr"));
}

#[test]
fn full_request_from_snapshot() {
    let mut s = snapshot(true, "openai", "de");
    set_stt_api_key(&mut s, "openai".to_string(), "sk-2".to_string()).expect("known provider");
    let r = transcribe_with_stt_api(&s, &vec![0, -1]).ok().expect("expected a request");
    assert_eq!(r.url, "https://api.openai.com/v1/audio/transcriptions");
    assert_eq!(r.model, "whisper-1");
    assert_eq!(r.language.as_deref(), Some("de"));
    assert_eq!(r.authorization.as_deref(), Some("Bearer sk-2"));
    assert_eq!(r.response_format, "json");
    assert_eq!(r.file_bytes.len(), 48);
}

#[test]
fn transport_error_messages_match_their_causes() {
    let e = SttError::NetworkError { cause: "dns failure".to_string() };
    assert_eq!(e.message(), "Failed to send STT request: dns failure");
    let e = SttError::ResponseReadError { cause: "cut off".to_string() };
    assert_eq!(e.message(), "Failed to read response body: cut off");
    let e = SttError::RequestBuildError { cause: "bad mime".to_string() };
    assert_eq!(e.message(), "Failed to create file part: bad mime");
}
