//! Provider routing for transcription: picks local or remote handling,
//! builds the provider-specific request, and interprets responses, including
//! the single bounded Deepgram model downgrade after a 403.
use vstd::prelude::*;

use crate::settings::{opt_view, Settings, TranscriptionProvider, UsageMode};
use crate::strutil::{is_prefix, lower_of, spec_is_blank, spec_trim};

verus! {

/// The character for one decimal digit.
pub open spec fn spec_digit_char(d: nat) -> char {
    if d == 0 {
        '0'
    } else if d == 1 {
        '1'
    } else if d == 2 {
        '2'
    } else if d == 3 {
        '3'
    } else if d == 4 {
        '4'
    } else if d == 5 {
        '5'
    } else if d == 6 {
        '6'
    } else if d == 7 {
        '7'
    } else if d == 8 {
        '8'
    } else {
        '9'
    }
}

/// Decimal digits of `n`, most significant first.
pub open spec fn spec_dec(n: nat) -> Seq<char>
    decreases n,
{
    if n < 10 {
        seq![spec_digit_char(n)]
    } else {
        spec_dec((n / 10) as nat) + seq![spec_digit_char((n % 10) as nat)]
    }
}

fn push_digit(s: &mut String, d: u16)
    requires
        d < 10,
    ensures
        final(s)@ == old(s)@ + seq![spec_digit_char(d as nat)],
{
    let c: &str = match d {
        0 => "0",
        1 => "1",
        2 => "2",
        3 => "3",
        4 => "4",
        5 => "5",
        6 => "6",
        7 => "7",
        8 => "8",
        _ => "9",
    };
    proof {
        reveal_strlit("0");
        reveal_strlit("1");
        reveal_strlit("2");
        reveal_strlit("3");
        reveal_strlit("4");
        reveal_strlit("5");
        reveal_strlit("6");
        reveal_strlit("7");
        reveal_strlit("8");
        reveal_strlit("9");
    }
    assert(c@ =~= seq![spec_digit_char(d as nat)]);
    s.append(c);
}

/// Writes `n` in decimal.
pub fn u16_to_string(n: u16) -> (r: String)
    ensures
        r@ == spec_dec(n as nat),
    decreases n,
{
    if n < 10 {
        let mut s = String::new();
        push_digit(&mut s, n);
        assert(s@ =~= seq![spec_digit_char(n as nat)]);
        s
    } else {
        let mut s = u16_to_string(n / 10);
        push_digit(&mut s, n % 10);
        s
    }
}

/// The Deepgram model that a settings snapshot selects: the configured
/// model, trimmed, when it looks like a Deepgram model name; `nova-3`
/// otherwise.
pub open spec fn spec_deepgram_model(configured: Seq<char>) -> Seq<char> {
    let t = spec_trim(configured);
    if t.len() == 0 {
        "nova-3"@
    } else if is_prefix("nova"@, lower_of(t)) || is_prefix("general"@, lower_of(t)) {
        t
    } else {
        "nova-3"@
    }
}

/// Picks the Deepgram model from the settings snapshot, defaulting to
/// `nova-3` when the configured name is blank or not a Deepgram model.
pub fn deepgram_model_from_settings(settings: &Settings) -> (r: String)
    ensures
        r@ == spec_deepgram_model(settings.deepgram_model@),
{
    let selected = crate::strutil::trim(settings.deepgram_model.as_str());
    if selected.as_str().is_empty() {
        return String::from_str("nova-3");
    }
    let lowered = crate::strutil::to_lowercase(selected.as_str());
    if crate::strutil::starts_with(lowered.as_str(), "nova") || crate::strutil::starts_with(
        lowered.as_str(),
        "general",
    ) {
        selected
    } else {
        String::from_str("nova-3")
    }
}

/// The models a direct Deepgram call tries, in order: the primary model,
/// then `nova-2` exactly when the primary is a `nova-3` variant.
pub open spec fn spec_models_to_try(primary: Seq<char>) -> Seq<Seq<char>> {
    if is_prefix("nova-3"@, primary) {
        seq![primary, "nova-2"@]
    } else {
        seq![primary]
    }
}

/// Builds the attempt list for a direct Deepgram call.
pub fn models_to_try(primary: String) -> (r: Vec<String>)
    ensures
        r.deep_view() == spec_models_to_try(primary@),
{
    let ghost p = primary@;
    let mut out: Vec<String> = Vec::new();
    let retry = crate::strutil::starts_with(primary.as_str(), "nova-3");
    out.push(primary);
    if retry {
        out.push(String::from_str("nova-2"));
        assert(out.deep_view() =~= seq![p, "nova-2"@]);
    } else {
        assert(out.deep_view() =~= seq![p]);
    }
    out
}

/// At most one model downgrade ever happens: the attempt list holds at most
/// two models, the second is always `nova-2`, and `nova-2` is itself never a
/// `nova-3` variant, so no second retry can be decided.
pub proof fn lemma_deepgram_single_retry(primary: Seq<char>)
    ensures
        spec_models_to_try(primary).len() <= 2,
        spec_models_to_try(primary).len() == 2 ==> spec_models_to_try(primary)[1] == "nova-2"@,
        !is_prefix("nova-3"@, "nova-2"@),
{
    reveal_strlit("nova-3");
    reveal_strlit("nova-2");
    assert(!is_prefix("nova-3"@, "nova-2"@)) by {
        if is_prefix("nova-3"@, "nova-2"@) {
            assert("nova-2"@.subrange(0, 6)[5] == "nova-3"@[5]);
            assert("nova-2"@[5] == '2');
            assert("nova-3"@[5] == '3');
        }
    };
}

/// Body of a request to the managed backend.
pub enum RequestBody {
    Deepgram {
        audio_blob: String,
        api_key: Option<String>,
        model: Option<String>,
        language: Option<String>,
    },
    Unified {
        audio: String,
        provider: String,
        model: Option<String>,
        language: Option<String>,
    },
}

/// A POST to the managed backend, bearer-authenticated when a token is set.
pub struct BackendRequest {
    pub endpoint: String,
    pub bearer: Option<String>,
    pub body: RequestBody,
}

/// A direct call against the Deepgram API, with the bounded model attempt
/// list.
pub struct DeepgramDirectRequest {
    pub api_key: String,
    pub models: Vec<String>,
    pub language: Option<String>,
    pub audio_wav: Vec<u8>,
}

/// Where a remote transcription request goes.
pub enum RemotePlan {
    Backend(BackendRequest),
    DeepgramDirect(DeepgramDirectRequest),
}

/// The configured backend base URL with trailing slashes removed; empty when
/// none is configured.
pub open spec fn spec_base(s: Settings) -> Seq<char> {
    match s.api_base_url {
        Some(u) => crate::strutil::spec_trim_trailing_slashes(u@),
        None => Seq::empty(),
    }
}

/// The language field a remote request carries: the selected language unless
/// it is `auto`.
pub open spec fn spec_language(s: Settings) -> Option<Seq<char>> {
    if s.selected_language@ == "auto"@ {
        None
    } else {
        Some(s.selected_language@)
    }
}

/// The model field a remote request carries.
pub open spec fn spec_model_field(s: Settings) -> Option<Seq<char>> {
    if s.provider is Deepgram {
        Some(spec_deepgram_model(s.deepgram_model@))
    } else if s.selected_model@.len() == 0 {
        None
    } else {
        Some(s.selected_model@)
    }
}

/// The Deepgram key held directly in the settings, unless blank.
pub open spec fn spec_settings_key(s: Settings) -> Option<Seq<char>> {
    match s.deepgram_api_key {
        Some(k) => if spec_is_blank(k@) {
            None
        } else {
            Some(k@)
        },
        None => None,
    }
}

/// The key a direct Deepgram call uses: the stored secret under secure
/// storage, else the key from the settings.
pub open spec fn spec_direct_key(s: Settings, stored: Option<Seq<char>>) -> Option<Seq<char>> {
    if s.use_secure_key_storage {
        stored
    } else {
        spec_settings_key(s)
    }
}

/// The key attached to a backend Deepgram request: only under own-keys
/// usage.
pub open spec fn spec_backend_key(s: Settings, stored: Option<Seq<char>>) -> Option<Seq<char>> {
    if s.usage_mode is OwnKeys {
        spec_direct_key(s, stored)
    } else {
        None
    }
}

/// The bearer token a backend request carries: the trimmed auth token,
/// unless blank.
pub open spec fn spec_bearer(s: Settings) -> Option<Seq<char>> {
    match s.auth_token {
        Some(t) => if spec_trim(t@).len() == 0 {
            None
        } else {
            Some(spec_trim(t@))
        },
        None => None,
    }
}

/// No backend base URL is configured and no usable key allows a direct
/// Deepgram call: remote transcription cannot proceed. A key counts from
/// the secure store under secure storage, and from the settings otherwise.
pub open spec fn spec_missing_remote_config(s: Settings, stored: Option<Seq<char>>) -> bool {
    spec_base(s).len() == 0 && !(s.provider is Deepgram && spec_direct_key(s, stored) is Some)
}

/// The sequence an optional value carries, empty when absent.
pub open spec fn opt_val(o: Option<Seq<char>>) -> Seq<char> {
    match o {
        Some(v) => v,
        None => Seq::empty(),
    }
}

fn base_url(settings: &Settings) -> (r: String)
    ensures
        r@ == spec_base(*settings),
{
    match &settings.api_base_url {
        Some(u) => crate::strutil::trim_trailing_slashes(u.as_str()),
        None => String::new(),
    }
}

fn language_field(settings: &Settings) -> (r: Option<String>)
    ensures
        opt_view(r) == spec_language(*settings),
{
    if crate::strutil::str_eq(settings.selected_language.as_str(), "auto") {
        None
    } else {
        Some(settings.selected_language.clone())
    }
}

fn settings_key(settings: &Settings) -> (r: Option<String>)
    ensures
        opt_view(r) == spec_settings_key(*settings),
{
    match &settings.deepgram_api_key {
        Some(k) => {
            if crate::strutil::is_blank(k.as_str()) {
                None
            } else {
                Some(k.clone())
            }
        },
        None => None,
    }
}

fn bearer_token(settings: &Settings) -> (r: Option<String>)
    ensures
        opt_view(r) == spec_bearer(*settings),
{
    match &settings.auth_token {
        Some(t) => {
            let trimmed = crate::strutil::trim(t.as_str());
            if trimmed.as_str().is_empty() {
                None
            } else {
                Some(trimmed)
            }
        },
        None => None,
    }
}

/// Routes a remote transcription request, with the stored Deepgram secret
/// and the already encoded audio handed in as values. Local selection and
/// missing configuration are rejected without producing a plan.
pub fn plan_remote_with_key(
    settings: &Settings,
    stored_deepgram_key: Option<String>,
    audio_uri: String,
    audio_wav: Vec<u8>,
) -> (r: Result<RemotePlan, String>)
    ensures
        (spec_missing_remote_config(*settings, opt_view(stored_deepgram_key))
            && !(settings.provider is Deepgram)) ==> (r matches Err(m)
            && m@ == "Remote transcription selected but no API base URL is configured in settings"@),
        (spec_missing_remote_config(*settings, opt_view(stored_deepgram_key))
            && settings.provider is Deepgram) ==> (r matches Err(m) && m@
            == "Deepgram provider requires a backend base URL or a stored Deepgram API key"@),
        (!spec_missing_remote_config(*settings, opt_view(stored_deepgram_key))
            && settings.provider is Local) ==> (r matches Err(m) && m@
            == "Remote transcription requested while provider is set to local"@),
        (settings.provider is Deepgram && spec_base(*settings).len() == 0 && spec_direct_key(
            *settings,
            opt_view(stored_deepgram_key),
        ) is Some) ==> (r matches Ok(p) && p matches RemotePlan::DeepgramDirect(d) && d.api_key@
            == opt_val(spec_direct_key(*settings, opt_view(stored_deepgram_key))) && d.audio_wav@
            == audio_wav@ && opt_view(d.language) == spec_language(*settings)
            && d.models.deep_view() == spec_models_to_try(
            spec_deepgram_model(settings.deepgram_model@),
        )),
        (settings.provider is Deepgram && spec_base(*settings).len() > 0) ==> (r matches Ok(p)
            && p matches RemotePlan::Backend(b) && b.body matches RequestBody::Deepgram {
                audio_blob,
                api_key,
                model,
                language,
            } && b.endpoint@ == spec_base(*settings) + "/api/transcribe/deepgram"@ && opt_view(
            b.bearer,
        ) == spec_bearer(*settings) && audio_blob@ == audio_uri@ && opt_view(api_key)
            == spec_backend_key(*settings, opt_view(stored_deepgram_key)) && opt_view(model)
            == spec_model_field(*settings) && opt_view(language) == spec_language(*settings)),
        (settings.provider is Openai && spec_base(*settings).len() > 0) ==> (r matches Ok(p)
            && p matches RemotePlan::Backend(b) && b.body matches RequestBody::Unified {
                audio,
                provider,
                model,
                language,
            } && b.endpoint@ == spec_base(*settings) + "/api/transcribe"@ && opt_view(b.bearer)
            == spec_bearer(*settings) && audio@ == audio_uri@ && provider@ == "openai"@
            && opt_view(model) == spec_model_field(*settings) && opt_view(language)
            == spec_language(*settings)),
{
    let base = base_url(settings);
    let base_empty = base.as_str().is_empty();
    let direct_key = if settings.use_secure_key_storage {
        stored_deepgram_key
    } else {
        settings_key(settings)
    };
    let can_direct = settings.provider == TranscriptionProvider::Deepgram
        && direct_key.is_some();
    if base_empty && !can_direct {
        if settings.provider == TranscriptionProvider::Deepgram {
            return Err(
                String::from_str(
                    "Deepgram provider requires a backend base URL or a stored Deepgram API key",
                ),
            );
        }
        return Err(
            String::from_str(
                "Remote transcription selected but no API base URL is configured in settings",
            ),
        );
    }
    let language = language_field(settings);
    match settings.provider {
        TranscriptionProvider::Local => Err(
            String::from_str("Remote transcription requested while provider is set to local"),
        ),
        TranscriptionProvider::Deepgram => {
            if base_empty {
                let api_key = match direct_key {
                    Some(k) => k,
                    None => {
                        assert(false);
                        String::new()
                    },
                };
                let primary = deepgram_model_from_settings(settings);
                Ok(
                    RemotePlan::DeepgramDirect(
                        DeepgramDirectRequest {
                            api_key,
                            models: models_to_try(primary),
                            language,
                            audio_wav,
                        },
                    ),
                )
            } else {
                let api_key = if settings.usage_mode == UsageMode::OwnKeys {
                    direct_key
                } else {
                    None
                };
                let mut endpoint = base;
                endpoint.append("/api/transcribe/deepgram");
                Ok(
                    RemotePlan::Backend(
                        BackendRequest {
                            endpoint,
                            bearer: bearer_token(settings),
                            body: RequestBody::Deepgram {
                                audio_blob: audio_uri,
                                api_key,
                                model: Some(deepgram_model_from_settings(settings)),
                                language,
                            },
                        },
                    ),
                )
            }
        },
        TranscriptionProvider::Openai => {
            let model = if settings.selected_model.as_str().is_empty() {
                None
            } else {
                Some(settings.selected_model.clone())
            };
            let mut endpoint = base;
            endpoint.append("/api/transcribe");
            Ok(
                RemotePlan::Backend(
                    BackendRequest {
                        endpoint,
                        bearer: bearer_token(settings),
                        body: RequestBody::Unified {
                            audio: audio_uri,
                            provider: String::from_str("openai"),
                            model,
                            language,
                        },
                    },
                ),
            )
        },
    }
}

/// Reads the stored Deepgram secret through the cache, encodes the samples,
/// and routes the request. The local provider and a missing configuration
/// never produce a plan; an OpenAI-compatible plan is independent of the
/// stored secret and is pinned outright; a Deepgram plan's key is pinned
/// wherever it does not depend on what the backing credential store
/// answered.
pub fn plan_remote(
    cache: &crate::secret_cache::SecretCache,
    settings: &Settings,
    samples: &Vec<i16>,
) -> (r: Result<RemotePlan, String>)
    requires
        samples@.len() <= crate::audio::MAX_WAV_SAMPLES,
    ensures
        settings.provider is Local ==> r is Err,
        (settings.provider is Local && spec_base(*settings).len() > 0) ==> (r matches Err(m) && m@
            == "Remote transcription requested while provider is set to local"@),
        (settings.provider is Openai && spec_base(*settings).len() == 0) ==> (r matches Err(m)
            && m@ == "Remote transcription selected but no API base URL is configured in settings"@),
        (settings.provider is Openai && spec_base(*settings).len() > 0) ==> (r matches Ok(p)
            && p matches RemotePlan::Backend(b) && b.body matches RequestBody::Unified {
                audio,
                provider,
                model,
                language,
            } && b.endpoint@ == spec_base(*settings) + "/api/transcribe"@ && opt_view(b.bearer)
            == spec_bearer(*settings) && audio@ == crate::audio::spec_wav_data_uri(samples@)
            && provider@ == "openai"@ && opt_view(model) == spec_model_field(*settings)
            && opt_view(language) == spec_language(*settings)),
        (settings.provider is Deepgram && spec_base(*settings).len() > 0) ==> (r matches Ok(p)
            && p matches RemotePlan::Backend(b) && b.body matches RequestBody::Deepgram {
                audio_blob,
                api_key,
                model,
                language,
            } && b.endpoint@ == spec_base(*settings) + "/api/transcribe/deepgram"@ && opt_view(
            b.bearer,
        ) == spec_bearer(*settings) && audio_blob@ == crate::audio::spec_wav_data_uri(samples@)
            && opt_view(model) == spec_model_field(*settings) && opt_view(language)
            == spec_language(*settings) && (settings.usage_mode is Managed ==> api_key is None) && (
        !settings.use_secure_key_storage ==> opt_view(api_key) == spec_backend_key(
            *settings,
            None,
        )) && (cache@.contains_key("deepgram"@) ==> opt_view(api_key) == spec_backend_key(
            *settings,
            Some(cache@["deepgram"@]),
        ))),
        (settings.provider is Deepgram && spec_base(*settings).len() == 0
            && !settings.use_secure_key_storage && spec_settings_key(*settings) is Some) ==> (
        r matches Ok(p) && p matches RemotePlan::DeepgramDirect(d) && d.api_key@ == opt_val(
            spec_settings_key(*settings),
        ) && d.audio_wav@ == crate::audio::wav_bytes_of(samples@) && opt_view(d.language)
            == spec_language(*settings) && d.models.deep_view() == spec_models_to_try(
            spec_deepgram_model(settings.deepgram_model@),
        )),
        (settings.provider is Deepgram && spec_base(*settings).len() == 0
            && !settings.use_secure_key_storage && spec_settings_key(*settings) is None) ==> (
        r matches Err(m) && m@
            == "Deepgram provider requires a backend base URL or a stored Deepgram API key"@),
        (settings.provider is Deepgram && spec_base(*settings).len() == 0
            && settings.use_secure_key_storage && cache@.contains_key("deepgram"@)) ==> (r matches
        Ok(p) && p matches RemotePlan::DeepgramDirect(d) && d.api_key@ == cache@["deepgram"@]
            && d.audio_wav@ == crate::audio::wav_bytes_of(samples@) && opt_view(d.language)
            == spec_language(*settings) && d.models.deep_view() == spec_models_to_try(
            spec_deepgram_model(settings.deepgram_model@),
        )),
{
    let stored = crate::secret_cache::fetch_api_key(cache, "deepgram");
    let audio_uri = crate::audio::encode_audio_to_wav_base64(samples);
    let audio_wav = crate::audio::encode_audio_to_wav_bytes(samples);
    plan_remote_with_key(settings, stored, audio_uri, audio_wav)
}

/// The optional `text`, `success` and `error` fields of a backend response.
pub struct UnifiedResponseFields {
    pub text: Option<String>,
    pub success: Option<bool>,
    pub error: Option<String>,
}

/// Names the fields a backend response body parses to: `None` when the body
/// is not valid JSON, else the `text`, `success` and `error` fields, each
/// absent when missing or of another shape.
pub uninterp spec fn unified_fields_of(body: Seq<char>) -> Option<
    (Option<Seq<char>>, Option<bool>, Option<Seq<char>>),
>;

/// Relies on `serde_json::from_str::<Value>` and `Value::{get, as_str,
/// as_bool}`: reads the `text`, `success` and `error` fields of the response
/// object, a function of the body text alone.
#[verifier::external_body]
fn parse_unified_response(body: &str) -> (r: Option<UnifiedResponseFields>)
    ensures
        r is Some <==> unified_fields_of(body@) is Some,
        r matches Some(f) ==> unified_fields_of(body@) == Some(
            (opt_view(f.text), f.success, opt_view(f.error)),
        ),
{
    let v: serde_json::Value = serde_json::from_str(body).ok()?;
    Some(UnifiedResponseFields {
        text: v.get("text").and_then(|t| t.as_str()).map(|s| s.to_string()),
        success: v.get("success").and_then(|s| s.as_bool()),
        error: v.get("error").and_then(|e| e.as_str()).map(|s| s.to_string()),
    })
}

/// A successful HTTP status, `200` through `299`.
pub open spec fn spec_status_success(status: int) -> bool {
    200 <= status < 300
}

/// What a backend response means: a reported `success == false` or a
/// non-success status is an error, worded by the `error` field when present
/// and synthesized from the status otherwise; a missing `text` field is an
/// error even on success; otherwise the text.
pub open spec fn spec_remote_outcome(
    status: int,
    fields: Option<(Option<Seq<char>>, Option<bool>, Option<Seq<char>>)>,
) -> Result<Seq<char>, Seq<char>> {
    match fields {
        None => Err("Failed to parse remote transcription response"@),
        Some(f) => if f.1 == Some(false) || !spec_status_success(status) {
            match f.2 {
                Some(e) => Err(e),
                None => Err("Remote transcription failed with status "@ + spec_dec(status as nat)),
            }
        } else {
            match f.0 {
                Some(t) => Ok(t),
                None => Err("Remote transcription returned no text"@),
            }
        },
    }
}

/// Interprets a backend transcription response from its HTTP status and
/// body.
pub fn interpret_remote_response(status: u16, body: &str) -> (r: Result<String, String>)
    ensures
        r matches Ok(t) ==> spec_remote_outcome(status as int, unified_fields_of(body@)) == Ok::<Seq<char>, Seq<char>>(t@),
        r matches Err(m) ==> spec_remote_outcome(status as int, unified_fields_of(body@)) == Err::<
            Seq<char>,
            Seq<char>,
        >(m@),
{
    let parsed = match parse_unified_response(body) {
        Some(f) => f,
        None => {
            return Err(String::from_str("Failed to parse remote transcription response"));
        },
    };
    let UnifiedResponseFields { text, success, error } = parsed;
    let reported_failure = match success {
        Some(b) => !b,
        None => false,
    };
    if reported_failure || !(200 <= status && status < 300) {
        return match error {
            Some(e) => Err(e),
            None => {
                let mut m = String::from_str("Remote transcription failed with status ");
                m.append(u16_to_string(status).as_str());
                Err(m)
            },
        };
    }
    match text {
        Some(t) => Ok(t),
        None => Err(String::from_str("Remote transcription returned no text")),
    }
}

/// The transcript at the fixed Deepgram path and the reported error text of
/// a direct Deepgram response.
pub struct DeepgramResponseFields {
    pub transcript: Option<String>,
    pub err_msg: Option<String>,
}

/// Names what a direct Deepgram response body parses to: `None` when the
/// body is not valid JSON, else the transcript under
/// `results.channels[0].alternatives[0].transcript` and the `err_msg` or
/// `error` field.
pub uninterp spec fn deepgram_fields_of(body: Seq<char>) -> Option<
    (Option<Seq<char>>, Option<Seq<char>>),
>;

/// Relies on `serde_json::from_str::<Value>` and `Value::{get, as_str}`:
/// walks the fixed transcript path and the error fields of a Deepgram
/// response, a function of the body text alone.
#[verifier::external_body]
fn parse_deepgram_response(body: &str) -> (r: Option<DeepgramResponseFields>)
    ensures
        r is Some <==> deepgram_fields_of(body@) is Some,
        r matches Some(f) ==> deepgram_fields_of(body@) == Some(
            (opt_view(f.transcript), opt_view(f.err_msg)),
        ),
{
    let v: serde_json::Value = serde_json::from_str(body).ok()?;
    let transcript = v
        .get("results")
        .and_then(|r| r.get("channels")).and_then(|c| c.get(0))
        .and_then(|ch| ch.get("alternatives")).and_then(|alts| alts.get(0))
        .and_then(|alt| alt.get("transcript")).and_then(|t| t.as_str())
        .map(|s| s.to_string());
    let err_msg = v
        .get("err_msg").or_else(|| v.get("error"))
        .and_then(|e| e.as_str()).map(|s| s.to_string());
    Some(DeepgramResponseFields { transcript, err_msg })
}

/// The endpoint a direct Deepgram call posts to.
pub const DEEPGRAM_LISTEN_URL: &'static str = "https://api.deepgram.com/v1/listen";

/// The query parameters of one direct Deepgram attempt: smart formatting
/// on, then the selected language when there is one, then the model tried.
pub fn deepgram_query_params(model: &str, language: &Option<String>) -> (r: Vec<(String, String)>)
    ensures
        language matches Some(l) ==> (r@.len() == 3 && r@[1].0@ == "language"@ && r@[1].1@ == l@),
        language is None ==> r@.len() == 2,
        r@[0].0@ == "smart_format"@ && r@[0].1@ == "true"@,
        r@[r@.len() - 1].0@ == "model"@ && r@[r@.len() - 1].1@ == model@,
{
    let mut out: Vec<(String, String)> = Vec::new();
    out.push((String::from_str("smart_format"), String::from_str("true")));
    if let Some(lang) = language {
        out.push((String::from_str("language"), lang.clone()));
    }
    out.push((String::from_str("model"), String::from_str(model)));
    out
}

/// What one direct Deepgram attempt decides next.
pub enum DeepgramStep {
    /// The transcript was extracted; transcription is done.
    Success(String),
    /// The attempt failed but the next model in the list is to be tried; the
    /// failure text is kept in case the next attempt also fails.
    RetryNext(String),
    /// The attempt failed terminally.
    Fail(String),
}

/// A failed attempt is retried exactly when the status is 403 and the model
/// tried is a `nova-3` variant.
pub open spec fn spec_should_retry(status: int, model: Seq<char>) -> bool {
    status == 403 && is_prefix("nova-3"@, model)
}

/// The error text a failed Deepgram response reports.
pub open spec fn spec_deepgram_err_text(f: (Option<Seq<char>>, Option<Seq<char>>)) -> Seq<char> {
    match f.1 {
        Some(e) => e,
        None => "Unknown Deepgram error"@,
    }
}

/// The message a failed Deepgram attempt surfaces.
pub open spec fn spec_deepgram_fail_msg(status: int, f: (
    Option<Seq<char>>,
    Option<Seq<char>>,
)) -> Seq<char> {
    "Deepgram transcription failed ("@ + spec_dec(status as nat) + "): "@
        + spec_deepgram_err_text(f)
}

/// The parsed fields of a direct Deepgram response, both absent when the
/// body does not parse.
pub open spec fn spec_deepgram_fields(body: Seq<char>) -> (Option<Seq<char>>, Option<Seq<char>>) {
    match deepgram_fields_of(body) {
        Some(f) => f,
        None => (None, None),
    }
}

/// Interprets one direct Deepgram attempt: a success status must carry the
/// transcript at the fixed path; a 403 on a `nova-3` variant asks for the
/// one retry; every other failure is terminal.
pub fn deepgram_attempt_step(status: u16, body: &str, model_name: &str) -> (r: DeepgramStep)
    ensures
        deepgram_fields_of(body@) is None ==> (r matches DeepgramStep::Fail(m) && m@
            == "Failed to parse Deepgram response JSON"@),
        (deepgram_fields_of(body@) is Some && spec_status_success(status as int)
            && spec_deepgram_fields(body@).0 is Some) ==> (r matches DeepgramStep::Success(t) && t@
            == opt_val(spec_deepgram_fields(body@).0)),
        (deepgram_fields_of(body@) is Some && spec_status_success(status as int)
            && spec_deepgram_fields(body@).0 is None) ==> (r matches DeepgramStep::Fail(m) && m@
            == "Deepgram response missing transcript"@),
        (deepgram_fields_of(body@) is Some && !spec_status_success(status as int)
            && spec_should_retry(status as int, model_name@)) ==> (r matches
            DeepgramStep::RetryNext(m) && m@ == spec_deepgram_fail_msg(
            status as int,
            spec_deepgram_fields(body@),
        )),
        (deepgram_fields_of(body@) is Some && !spec_status_success(status as int)
            && !spec_should_retry(status as int, model_name@)) ==> (r matches DeepgramStep::Fail(m)
            && m@ == spec_deepgram_fail_msg(status as int, spec_deepgram_fields(body@))),
{
    let parsed = match parse_deepgram_response(body) {
        Some(f) => f,
        None => {
            return DeepgramStep::Fail(
                String::from_str("Failed to parse Deepgram response JSON"),
            );
        },
    };
    if 200 <= status && status < 300 {
        return match parsed.transcript {
            Some(t) => DeepgramStep::Success(t),
            None => DeepgramStep::Fail(String::from_str("Deepgram response missing transcript")),
        };
    }
    let err_text = match parsed.err_msg {
        Some(e) => e,
        None => String::from_str("Unknown Deepgram error"),
    };
    let mut m = String::from_str("Deepgram transcription failed (");
    m.append(u16_to_string(status).as_str());
    m.append("): ");
    m.append(err_text.as_str());
    if status == 403 && crate::strutil::starts_with(model_name, "nova-3") {
        DeepgramStep::RetryNext(m)
    } else {
        DeepgramStep::Fail(m)
    }
}

} // verus!
