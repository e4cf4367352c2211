use handy_core::router::{
    deepgram_attempt_step, deepgram_model_from_settings, interpret_remote_response,
    models_to_try, plan_remote_with_key, u16_to_string, DeepgramStep, RemotePlan, RequestBody,
};
use handy_core::settings::{Settings, TranscriptionProvider, UsageMode};

fn base_settings() -> Settings {
    Settings {
        provider: TranscriptionProvider::Openai,
        api_base_url: None,
        auth_token: None,
        selected_language: "auto".to_string(),
        selected_model: String::new(),
        deepgram_model: String::new(),
        deepgram_api_key: None,
        use_secure_key_storage: false,
        usage_mode: UsageMode::Managed,
        always_on_microphone: false,
        post_process_enabled: false,
        selected_post_process_provider: None,
        post_process_models: Vec::new(),
        post_process_api_keys: Vec::new(),
        post_process_prompts: Vec::new(),
        post_process_selected_prompt_id: None,
    }
}

#[test]
fn u16_renders_decimal() {
    assert_eq!(u16_to_string(0), "0");
    assert_eq!(u16_to_string(7), "7");
    assert_eq!(u16_to_string(403), "403");
    assert_eq!(u16_to_string(65535), "65535");
}

#[test]
fn deepgram_model_defaults_and_trims() {
    let mut s = base_settings();
    assert_eq!(deepgram_model_from_settings(&s), "nova-3");
    s.deepgram_model = "  Nova-2-general  ".to_string();
    assert_eq!(deepgram_model_from_settings(&s), "Nova-2-general");
    s.deepgram_model = "general-enhanced".to_string();
    assert_eq!(deepgram_model_from_settings(&s), "general-enhanced");
    s.deepgram_model = "whisper-large".to_string();
    assert_eq!(deepgram_model_from_settings(&s), "nova-3");
    s.deepgram_model = "   ".to_string();
    assert_eq!(deepgram_model_from_settings(&s), "nova-3");
}

#[test]
fn model_attempt_list_downgrades_only_nova3() {
    let models = models_to_try("nova-3".to_string());
    assert_eq!(models, vec!["nova-3".to_string(), "nova-2".to_string()]);
    let models = models_to_try("nova-3-general".to_string());
    assert_eq!(models, vec!["nova-3-general".to_string(), "nova-2".to_string()]);
    let models = models_to_try("nova-2".to_string());
    assert_eq!(models, vec!["nova-2".to_string()]);
    let models = models_to_try("general".to_string());
    assert_eq!(models, vec!["general".to_string()]);
}

#[test]
fn missing_base_and_key_fails_before_any_call() {
    let mut s = base_settings();
    s.provider = TranscriptionProvider::Deepgram;
    let r = plan_remote_with_key(&s, None, String::new(), Vec::new());
    assert_eq!(
        r.err().unwrap(),
        "Deepgram provider requires a backend base URL or a stored Deepgram API key"
    );
    let mut s = base_settings();
    s.provider = TranscriptionProvider::Openai;
    let r = plan_remote_with_key(&s, None, String::new(), Vec::new());
    assert_eq!(
        r.err().unwrap(),
        "Remote transcription selected but no API base URL is configured in settings"
    );
}

#[test]
fn local_provider_is_never_planned_remotely() {
    let mut s = base_settings();
    s.provider = TranscriptionProvider::Local;
    s.api_base_url = Some("https://backend".to_string());
    let r = plan_remote_with_key(&s, None, "uri".to_string(), Vec::new());
    assert_eq!(
        r.err().unwrap(),
        "Remote transcription requested while provider is set to local"
    );
}

#[test]
fn deepgram_direct_plan_uses_stored_key() {
    let mut s = base_settings();
    s.provider = TranscriptionProvider::Deepgram;
    s.use_secure_key_storage = true;
    let wav = vec![1u8, 2, 3];
    let r = plan_remote_with_key(&s, Some("KEY".to_string()), "uri".to_string(), wav.clone());
    match r.unwrap() {
        RemotePlan::DeepgramDirect(d) => {
            assert_eq!(d.api_key, "KEY");
            assert_eq!(d.models, vec!["nova-3".to_string(), "nova-2".to_string()]);
            assert_eq!(d.language, None);
            assert_eq!(d.audio_wav, wav);
        }
        _ => panic!("expected a direct Deepgram plan"),
    }
}

#[test]
fn deepgram_direct_plan_without_usable_key_fails() {
    let mut s = base_settings();
    s.provider = TranscriptionProvider::Deepgram;
    s.use_secure_key_storage = false;
    s.deepgram_api_key = Some("   ".to_string());
    // Secure storage is off, so the stored key does not count and the
    // blank settings key leaves no usable key.
    let r = plan_remote_with_key(&s, Some("KEY".to_string()), "uri".to_string(), Vec::new());
    assert_eq!(
        r.err().unwrap(),
        "Deepgram provider requires a backend base URL or a stored Deepgram API key"
    );
}

#[test]
fn deepgram_direct_plan_uses_the_settings_key_without_secure_storage() {
    let mut s = base_settings();
    s.provider = TranscriptionProvider::Deepgram;
    s.use_secure_key_storage = false;
    s.deepgram_api_key = Some("settings-key".to_string());
    // No base URL and an empty secure store: the non-blank settings key is
    // usable, so the direct plan is produced from it.
    let r = plan_remote_with_key(&s, None, "uri".to_string(), vec![7u8]);
    match r.unwrap() {
        RemotePlan::DeepgramDirect(d) => {
            assert_eq!(d.api_key, "settings-key");
            assert_eq!(d.models, vec!["nova-3".to_string(), "nova-2".to_string()]);
            assert_eq!(d.audio_wav, vec![7u8]);
        }
        _ => panic!("expected a direct Deepgram plan"),
    }
}

#[test]
fn deepgram_backend_plan_carries_key_and_bearer() {
    let mut s = base_settings();
    s.provider = TranscriptionProvider::Deepgram;
    s.api_base_url = Some("https://backend//".to_string());
    s.auth_token = Some("  token  ".to_string());
    s.usage_mode = UsageMode::OwnKeys;
    s.use_secure_key_storage = false;
    s.deepgram_api_key = Some(" sk ".to_string());
    s.selected_language = "en".to_string();
    let r = plan_remote_with_key(&s, None, "uri".to_string(), Vec::new());
    match r.unwrap() {
        RemotePlan::Backend(b) => {
            assert_eq!(b.endpoint, "https://backend/api/transcribe/deepgram");
            assert_eq!(b.bearer, Some("token".to_string()));
            match b.body {
                RequestBody::Deepgram { audio_blob, api_key, model, language } => {
                    assert_eq!(audio_blob, "uri");
                    assert_eq!(api_key, Some(" sk ".to_string()));
                    assert_eq!(model, Some("nova-3".to_string()));
                    assert_eq!(language, Some("en".to_string()));
                }
                _ => panic!("expected a Deepgram body"),
            }
        }
        _ => panic!("expected a backend plan"),
    }
}

#[test]
fn deepgram_backend_plan_managed_mode_sends_no_key() {
    let mut s = base_settings();
    s.provider = TranscriptionProvider::Deepgram;
    s.api_base_url = Some("https://backend".to_string());
    s.usage_mode = UsageMode::Managed;
    s.deepgram_api_key = Some("sk".to_string());
    let r = plan_remote_with_key(&s, Some("KEY".to_string()), "uri".to_string(), Vec::new());
    match r.unwrap() {
        RemotePlan::Backend(b) => match b.body {
            RequestBody::Deepgram { api_key, .. } => assert_eq!(api_key, None),
            _ => panic!("expected a Deepgram body"),
        },
        _ => panic!("expected a backend plan"),
    }
}

#[test]
fn openai_backend_plan() {
    let mut s = base_settings();
    s.api_base_url = Some("https://backend/".to_string());
    s.selected_model = "whisper-1".to_string();
    s.selected_language = "de".to_string();
    let r = plan_remote_with_key(&s, None, "uri".to_string(), Vec::new());
    match r.unwrap() {
        RemotePlan::Backend(b) => {
            assert_eq!(b.endpoint, "https://backend/api/transcribe");
            assert_eq!(b.bearer, None);
            match b.body {
                RequestBody::Unified { audio, provider, model, language } => {
                    assert_eq!(audio, "uri");
                    assert_eq!(provider, "openai");
                    assert_eq!(model, Some("whisper-1".to_string()));
                    assert_eq!(language, Some("de".to_string()));
                }
                _ => panic!("expected a unified body"),
            }
        }
        _ => panic!("expected a backend plan"),
    }
}

#[test]
fn remote_response_success_returns_text() {
    let r = interpret_remote_response(200, "{\"text\":\"hello\",\"success\":true}");
    assert_eq!(r.unwrap(), "hello");
}

#[test]
fn remote_response_reported_error_wins() {
    let r = interpret_remote_response(200, "{\"success\":false,\"error\":\"boom\"}");
    assert_eq!(r.err().unwrap(), "boom");
}

#[test]
fn remote_response_reported_failure_without_error_text_is_synthesized() {
    // success == false is an error even on HTTP 200 with a text field.
    let r = interpret_remote_response(200, "{\"success\":false,\"text\":\"hello\"}");
    assert_eq!(r.err().unwrap(), "Remote transcription failed with status 200");
}

#[test]
fn deepgram_query_params_are_ordered() {
    let params = handy_core::router::deepgram_query_params("nova-3", &Some("en".to_string()));
    assert_eq!(
        params,
        vec![
            ("smart_format".to_string(), "true".to_string()),
            ("language".to_string(), "en".to_string()),
            ("model".to_string(), "nova-3".to_string()),
        ]
    );
    let params = handy_core::router::deepgram_query_params("general", &None);
    assert_eq!(
        params,
        vec![
            ("smart_format".to_string(), "true".to_string()),
            ("model".to_string(), "general".to_string()),
        ]
    );
}

#[test]
fn remote_response_status_failure_synthesizes_message() {
    let r = interpret_remote_response(500, "{}");
    assert_eq!(r.err().unwrap(), "Remote transcription failed with status 500");
    let r = interpret_remote_response(502, "{\"error\":\"bad gateway\"}");
    assert_eq!(r.err().unwrap(), "bad gateway");
}

#[test]
fn remote_response_missing_text_is_an_error() {
    let r = interpret_remote_response(200, "{\"success\":true}");
    assert_eq!(r.err().unwrap(), "Remote transcription returned no text");
}

#[test]
fn remote_response_unparsable_body_is_an_error() {
    let r = interpret_remote_response(200, "not json");
    assert_eq!(r.err().unwrap(), "Failed to parse remote transcription response");
}

#[test]
fn deepgram_403_on_nova3_retries_once() {
    let step = deepgram_attempt_step(403, "{\"err_msg\":\"denied\"}", "nova-3");
    match step {
        DeepgramStep::RetryNext(m) => {
            assert_eq!(m, "Deepgram transcription failed (403): denied")
        }
        _ => panic!("expected a retry"),
    }
    // The fallback model is nova-2, which never retries again.
    let step = deepgram_attempt_step(403, "{\"err_msg\":\"denied\"}", "nova-2");
    match step {
        DeepgramStep::Fail(m) => assert_eq!(m, "Deepgram transcription failed (403): denied"),
        _ => panic!("expected a terminal failure"),
    }
}

#[test]
fn deepgram_non_403_failure_never_retries() {
    let step = deepgram_attempt_step(500, "{}", "nova-3");
    match step {
        DeepgramStep::Fail(m) => {
            assert_eq!(m, "Deepgram transcription failed (500): Unknown Deepgram error")
        }
        _ => panic!("expected a terminal failure"),
    }
    let step = deepgram_attempt_step(401, "{\"error\":\"no auth\"}", "nova-3");
    match step {
        DeepgramStep::Fail(m) => assert_eq!(m, "Deepgram transcription failed (401): no auth"),
        _ => panic!("expected a terminal failure"),
    }
}

#[test]
fn deepgram_success_extracts_fixed_path() {
    let body = "{\"results\":{\"channels\":[{\"alternatives\":[{\"transcript\":\"hi there\"}]}]}}";
    let step = deepgram_attempt_step(200, body, "nova-3");
    match step {
        DeepgramStep::Success(t) => assert_eq!(t, "hi there"),
        _ => panic!("expected success"),
    }
}

#[test]
fn deepgram_success_without_transcript_is_an_error() {
    let step = deepgram_attempt_step(200, "{}", "nova-3");
    match step {
        DeepgramStep::Fail(m) => assert_eq!(m, "Deepgram response missing transcript"),
        _ => panic!("expected a failure"),
    }
}

#[test]
fn deepgram_unparsable_body_is_an_error() {
    let step = deepgram_attempt_step(200, "<html>", "nova-3");
    match step {
        DeepgramStep::Fail(m) => assert_eq!(m, "Failed to parse Deepgram response JSON"),
        _ => panic!("expected a failure"),
    }
}
