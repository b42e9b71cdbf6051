//! The transcription pipeline: resolving the active provider from a snapshot,
//! building the outgoing multipart request description, and validating a
//! completed response down to the transcribed text.
//!
//! The request is described as plain values (URL, form fields, header); the
//! caller owns the transport that carries it and hands the raw status and
//! body back to `process_response`.

use vstd::prelude::*;
use vstd::string::StrSliceExecFns;
use vstd::string::StringExecFns;
use crate::error::SttError;
use crate::settings::SettingsSnapshot;
use crate::settings::SttApiProvider;
use crate::settings::find_provider_index;
use crate::settings::lemma_find_provider_props;
use crate::settings::spec_find_provider;
use crate::settings::spec_lookup;
use crate::text::spec_trim;
use crate::text::trim_str;
use crate::wav::samples_to_wav;
use crate::wav::spec_wav_bytes;

verus! {

/// The string without its trailing `'/'` characters.
pub open spec fn spec_strip_trailing_slashes(s: Seq<char>) -> Seq<char>
    decreases s.len(),
{
    if s.len() > 0 && s.last() == '/' {
        spec_strip_trailing_slashes(s.drop_last())
    } else {
        s
    }
}

/// Returns a copy of `s` without its trailing `'/'` characters.
pub fn strip_trailing_slashes(s: &str) -> (r: String)
    ensures
        r@ == spec_strip_trailing_slashes(s@),
{
    let n = s.unicode_len();
    let mut end: usize = n;
    proof {
        assert(s@.take(n as int) =~= s@);
    }
    while end > 0 && s.get_char(end - 1) == '/'
        invariant
            end <= n,
            n == s@.len(),
            spec_strip_trailing_slashes(s@) == spec_strip_trailing_slashes(s@.take(end as int)),
        decreases end,
    {
        proof {
            let t = s@.take(end as int);
            assert(t.last() == s@[end - 1]);
            assert(t.drop_last() =~= s@.take(end as int - 1));
        }
        end = end - 1;
    }
    let r = s.substring_char(0, end);
    proof {
        assert(r@ =~= s@.take(end as int));
    }
    r.to_owned()
}

/// The endpoint URL for a provider: its base URL, trailing slashes stripped,
/// with the transcription path appended.
pub open spec fn spec_endpoint_url(base_url: Seq<char>) -> Seq<char> {
    spec_strip_trailing_slashes(base_url) + "/audio/transcriptions"@
}

/// The language form field: the chosen language passed through verbatim,
/// omitted when absent, empty, or the sentinel `"auto"`.
pub open spec fn spec_language_field(language: Option<String>) -> Option<Seq<char>> {
    match language {
        Option::Some(l) => if l@ == "auto"@ || l@.len() == 0 {
            None
        } else {
            Some(l@)
        },
        Option::None => None,
    }
}

/// The authorization header: a bearer credential built from the API key, or
/// no header at all when the trimmed key is empty.
pub open spec fn spec_auth_header(api_key: Seq<char>) -> Option<Seq<char>> {
    if spec_trim(api_key).len() == 0 {
        None
    } else {
        Some("Bearer "@ + api_key)
    }
}

/// Whether an HTTP status code is in the conventional success range.
pub open spec fn spec_is_success(status: u16) -> bool {
    200 <= status < 300
}

/// A fully built transcription request, as plain values: where to send it,
/// the multipart fields to carry, and the optional authorization header.
pub struct SttRequest {
    /// Target of the POST.
    pub url: String,
    /// The encoded audio container, sent as the `file` part.
    pub file_bytes: Vec<u8>,
    /// The `file` part's filename.
    pub file_name: String,
    /// The `file` part's media type.
    pub mime_type: String,
    /// The `model` form field.
    pub model: String,
    /// The `language` form field, when one is sent.
    pub language: Option<String>,
    /// The `response_format` form field.
    pub response_format: String,
    /// The full `Authorization` header value, when one is sent.
    pub authorization: Option<String>,
}

/// Assembles the request for one transcription attempt: the provider's
/// endpoint URL, the encoded audio, the form fields, and the authorization
/// header exactly when the trimmed API key is non-empty. Never fails.
pub fn build_transcription_request(
    provider: &SttApiProvider,
    api_key: String,
    model: &str,
    audio_samples: &Vec<i16>,
    language: Option<String>,
) -> (r: SttRequest)
    requires
        36 + 2 * audio_samples@.len() <= 0xFFFF_FFFF,
    ensures
        r.url@ == spec_endpoint_url(provider.base_url@),
        r.file_bytes@ == spec_wav_bytes(audio_samples@),
        r.file_name@ == "audio.wav"@,
        r.mime_type@ == "audio/wav"@,
        r.model@ == model@,
        (match r.language {
            Some(l) => spec_language_field(language) == Some(l@),
            None => spec_language_field(language) is None,
        }),
        r.response_format@ == "json"@,
        (match r.authorization {
            Some(a) => spec_auth_header(api_key@) == Some(a@),
            None => spec_auth_header(api_key@) is None,
        }),
{
    let url = strip_trailing_slashes(provider.base_url.as_str()).concat("/audio/transcriptions");
    let file_bytes = samples_to_wav(audio_samples);
    let language_field = match language {
        Some(lang) => {
            let auto = String::from_str("auto");
            if !lang.eq(&auto) && !lang.as_str().is_empty() {
                Some(lang)
            } else {
                None
            }
        },
        None => None,
    };
    let trimmed = trim_str(api_key.as_str());
    let authorization = if trimmed.as_str().is_empty() {
        None
    } else {
        Some(String::from_str("Bearer ").concat(api_key.as_str()))
    };
    SttRequest {
        url,
        file_bytes,
        file_name: String::from_str("audio.wav"),
        mime_type: String::from_str("audio/wav"),
        model: model.to_owned(),
        language: language_field,
        response_format: String::from_str("json"),
        authorization,
    }
}

/// The expected success shape of the endpoint's JSON answer: an object with a
/// `text` field.
pub struct SttTranscriptionResponse {
    pub text: String,
}

/// What the JSON parse of a response body yields: the value of the `"text"`
/// field when the body is a JSON object carrying that field as a string
/// (other fields are ignored), and nothing otherwise.
pub uninterp spec fn spec_json_text_field(body: Seq<char>) -> Option<Seq<char>>;

/// Relies on serde_json::from_str::<serde_json::Value>, serde_json::Value::get
/// and serde_json::Value::as_str: parsing succeeds exactly when the body is a
/// JSON object whose `"text"` field is a string, yields that field, and
/// depends on the body text alone; on failure the cause describes it.
#[verifier::external_body]
fn parse_transcription_response(body: &str) -> (r: Result<SttTranscriptionResponse, String>)
    ensures
        r is Ok <==> spec_json_text_field(body@) is Some,
        (match r {
            Ok(t) => spec_json_text_field(body@) == Some(t.text@),
            Err(_) => true,
        }),
{
    match serde_json::from_str::<serde_json::Value>(body) {
        Ok(v) => match v.get("text") {
            Some(t) => match t.as_str() {
                Some(s) => Ok(SttTranscriptionResponse { text: s.to_string() }),
                None => Err(String::from("invalid type of field `text`: expected a string")),
            },
            None => Err(String::from("missing field `text`")),
        },
        Err(e) => Err(e.to_string()),
    }
}

/// Normalizes extracted transcription text: surrounding whitespace is
/// trimmed, and a result that is empty after trimming is a failure, not a
/// silent empty success.
pub fn normalize_transcript(response: SttTranscriptionResponse) -> (r: Result<String, SttError>)
    ensures
        spec_trim(response.text@).len() == 0 ==> (r matches Err(e) && e
            == SttError::EmptyTranscription),
        spec_trim(response.text@).len() > 0 ==> (r matches Ok(t) && t@ == spec_trim(
            response.text@,
        )),
{
    let text = trim_str(response.text.as_str());
    if text.as_str().is_empty() {
        Err(SttError::EmptyTranscription)
    } else {
        Ok(text)
    }
}

/// Validates one completed HTTP exchange: a non-success status fails with the
/// status and the raw body; a success body is parsed as JSON `{"text": ...}`
/// and the text is trimmed, an empty result being a distinct failure.
pub fn process_response(status: u16, body: String) -> (r: Result<String, SttError>)
    ensures
        !spec_is_success(status) ==> (r matches Err(e) && e == (SttError::HttpStatusError {
            status,
            body,
        })),
        spec_is_success(status) && spec_json_text_field(body@) is None ==> (r matches Err(e) && (
        e matches SttError::ParseError { cause: _, raw_body } && raw_body == body)),
        spec_is_success(status) ==> (match spec_json_text_field(body@) {
            Some(text) => {
                &&& spec_trim(text).len() == 0 ==> (r matches Err(e) && e
                    == SttError::EmptyTranscription)
                &&& spec_trim(text).len() > 0 ==> (r matches Ok(t) && t@ == spec_trim(text))
            },
            None => true,
        }),
{
    if !(status >= 200 && status < 300) {
        return Err(SttError::HttpStatusError { status, body });
    }
    match parse_transcription_response(body.as_str()) {
        Ok(resp) => normalize_transcript(resp),
        Err(cause) => Err(SttError::ParseError { cause, raw_body: body }),
    }
}

/// The outcome of resolving a configuration snapshot: the active provider and
/// the credentials, model, and language preference to use with it.
pub struct ResolvedStt {
    pub provider: SttApiProvider,
    pub api_key: String,
    pub model: String,
    pub language: Option<String>,
}

/// The API key resolved for a provider id: the stored key, or empty when none
/// is stored (absence permits an unauthenticated request).
pub open spec fn spec_resolved_api_key(s: SettingsSnapshot, id: Seq<char>) -> Seq<char> {
    match spec_lookup(s.stt_api.api_keys.entries@, id) {
        Some(k) => k,
        None => Seq::empty(),
    }
}

/// The model resolved for a provider id: the stored name, or the fixed
/// fallback when none is stored.
pub open spec fn spec_resolved_model(s: SettingsSnapshot, id: Seq<char>) -> Seq<char> {
    match spec_lookup(s.stt_api.models.entries@, id) {
        Some(m) => m,
        None => "whisper-1"@,
    }
}

/// The language form field resolved from a snapshot: the selected language
/// verbatim, omitted when it is the sentinel `"auto"` or empty.
pub open spec fn spec_resolved_language_field(s: SettingsSnapshot) -> Option<Seq<char>> {
    if s.selected_language@ == "auto"@ || s.selected_language@.len() == 0 {
        None
    } else {
        Some(s.selected_language@)
    }
}

/// Determines whether the feature path is usable and resolves the active
/// provider with its API key, model, and language preference. Pure read of
/// the snapshot.
pub fn resolve_stt_provider(settings: &SettingsSnapshot) -> (r: Result<ResolvedStt, SttError>)
    ensures
        !settings.stt_api.enabled ==> (r matches Err(e) && e == SttError::NotEnabled),
        settings.stt_api.enabled && spec_find_provider(
            settings.stt_api.providers@,
            settings.stt_api.provider_id@,
        ) is None ==> (r matches Err(e) && e == SttError::NoProviderConfigured),
        settings.stt_api.enabled ==> (match spec_find_provider(
            settings.stt_api.providers@,
            settings.stt_api.provider_id@,
        ) {
            Some(i) => r matches Ok(res) && res.provider == settings.stt_api.providers@[i]
                && res.api_key@ == spec_resolved_api_key(*settings, res.provider.id@)
                && res.model@ == spec_resolved_model(*settings, res.provider.id@) && (
            match res.language {
                Some(l) => settings.selected_language@ != "auto"@ && l@
                    == settings.selected_language@,
                None => settings.selected_language@ == "auto"@,
            }),
            None => true,
        }),
{
    if !settings.stt_api.enabled {
        return Err(SttError::NotEnabled);
    }
    let idx = match find_provider_index(
        &settings.stt_api.providers,
        &settings.stt_api.provider_id,
    ) {
        Some(i) => i,
        None => { return Err(SttError::NoProviderConfigured) },
    };
    proof {
        lemma_find_provider_props(settings.stt_api.providers@, settings.stt_api.provider_id@);
    }
    let provider = settings.stt_api.providers[idx].clone();
    let api_key = match settings.stt_api.api_keys.get(&provider.id) {
        Some(k) => k.clone(),
        None => String::new(),
    };
    let model = match settings.stt_api.models.get(&provider.id) {
        Some(m) => m.clone(),
        None => String::from_str("whisper-1"),
    };
    let auto = String::from_str("auto");
    let language = if settings.selected_language.eq(&auto) {
        None
    } else {
        Some(settings.selected_language.clone())
    };
    Ok(ResolvedStt { provider, api_key, model, language })
}

/// Resolves the active provider from the snapshot and builds the complete
/// outgoing request for the given samples: one transcription attempt up to
/// the transport. The caller sends the request and hands the raw status and
/// body to `process_response`.
pub fn transcribe_with_stt_api(settings: &SettingsSnapshot, audio_samples: &Vec<i16>) -> (r:
    Result<SttRequest, SttError>)
    requires
        36 + 2 * audio_samples@.len() <= 0xFFFF_FFFF,
    ensures
        !settings.stt_api.enabled ==> (r matches Err(e) && e == SttError::NotEnabled),
        settings.stt_api.enabled && spec_find_provider(
            settings.stt_api.providers@,
            settings.stt_api.provider_id@,
        ) is None ==> (r matches Err(e) && e == SttError::NoProviderConfigured),
        settings.stt_api.enabled ==> (match spec_find_provider(
            settings.stt_api.providers@,
            settings.stt_api.provider_id@,
        ) {
            Some(i) => {
                let p = settings.stt_api.providers@[i];
                r matches Ok(req) && req.url@ == spec_endpoint_url(p.base_url@) && req.file_bytes@
                    == spec_wav_bytes(audio_samples@) && req.file_name@ == "audio.wav"@
                    && req.mime_type@ == "audio/wav"@ && req.model@ == spec_resolved_model(
                    *settings,
                    p.id@,
                ) && (match req.language {
                    Some(l) => spec_resolved_language_field(*settings) == Some(l@),
                    None => spec_resolved_language_field(*settings) is None,
                }) && req.response_format@ == "json"@ && (match req.authorization {
                    Some(a) => spec_auth_header(spec_resolved_api_key(*settings, p.id@)) == Some(
                        a@,
                    ),
                    None => spec_auth_header(spec_resolved_api_key(*settings, p.id@)) is None,
                })
            },
            None => true,
        }),
{
    let resolved = match resolve_stt_provider(settings) {
        Ok(res) => res,
        Err(e) => { return Err(e) },
    };
    let req = build_transcription_request(
        &resolved.provider,
        resolved.api_key,
        resolved.model.as_str(),
        audio_samples,
        resolved.language,
    );
    Ok(req)
}

} // verus!
