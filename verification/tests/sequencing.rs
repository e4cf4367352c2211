use handy_core::audio::encode_audio_to_wav_base64;
use handy_core::dispatch::{
    after_start_attempt, delivery_plan, no_samples_effects, route_transcription, start_effects,
    stop_effects, ActionKind, ActionRegistry, Effect, StopOutcome, TranscriptionRoute,
    TrayIconState,
};
use handy_core::finalize::FinalizedText;
use handy_core::settings::{Settings, TranscriptionProvider, UsageMode};

fn base_settings() -> Settings {
    Settings {
        provider: TranscriptionProvider::Local,
        api_base_url: None,
        auth_token: None,
        selected_language: "auto".to_string(),
        selected_model: String::new(),
        deepgram_model: String::new(),
        deepgram_api_key: None,
        use_secure_key_storage: false,
        usage_mode: UsageMode::Managed,
        always_on_microphone: false,
        post_process_enabled: false,
        selected_post_process_provider: None,
        post_process_models: Vec::new(),
        post_process_api_keys: Vec::new(),
        post_process_prompts: Vec::new(),
        post_process_selected_prompt_id: None,
    }
}

#[test]
fn registry_resolves_the_two_actions() {
    let reg = ActionRegistry::new();
    assert_eq!(reg.lookup("transcribe"), Some(ActionKind::Transcribe));
    assert_eq!(reg.lookup("test"), Some(ActionKind::Test));
    assert_eq!(reg.lookup("other"), None);
    assert_eq!(reg.lookup(""), None);
}

#[test]
fn local_provider_routes_to_the_local_engine() {
    let mut s = base_settings();
    assert_eq!(route_transcription(&s), TranscriptionRoute::LocalEngine);
    s.provider = TranscriptionProvider::Deepgram;
    assert_eq!(route_transcription(&s), TranscriptionRoute::Remote);
    s.provider = TranscriptionProvider::Openai;
    assert_eq!(route_transcription(&s), TranscriptionRoute::Remote);
}

#[test]
fn start_in_on_demand_mode_defers_feedback_until_capture_started() {
    let s = base_settings();
    let effects = start_effects(&s);
    assert_eq!(effects.len(), 4);
    assert!(matches!(effects[0], Effect::InitiateModelLoad));
    assert!(matches!(effects[1], Effect::SetTray(TrayIconState::Recording)));
    assert!(matches!(effects[2], Effect::ShowRecordingOverlay));
    assert!(matches!(effects[3], Effect::TryStartRecording));
    let follow = after_start_attempt(&s, true);
    assert_eq!(follow.len(), 1);
    assert!(matches!(follow[0], Effect::SpawnFeedbackThenMute { settle_millis: 100 }));
    let follow = after_start_attempt(&s, false);
    assert!(follow.is_empty());
}

#[test]
fn start_in_always_on_mode_spawns_feedback_before_capture() {
    let mut s = base_settings();
    s.provider = TranscriptionProvider::Deepgram;
    s.always_on_microphone = true;
    let effects = start_effects(&s);
    assert_eq!(effects.len(), 4);
    assert!(matches!(effects[0], Effect::SetTray(TrayIconState::Recording)));
    assert!(matches!(effects[1], Effect::ShowRecordingOverlay));
    assert!(matches!(effects[2], Effect::SpawnFeedbackThenMute { settle_millis: 0 }));
    assert!(matches!(effects[3], Effect::TryStartRecording));
    let follow = after_start_attempt(&s, true);
    assert!(follow.is_empty());
}

#[test]
fn stop_unmutes_before_feedback_and_retrieves_last() {
    let effects = stop_effects();
    assert_eq!(effects.len(), 5);
    assert!(matches!(effects[0], Effect::SetTray(TrayIconState::Transcribing)));
    assert!(matches!(effects[1], Effect::ShowTranscribingOverlay));
    assert!(matches!(effects[2], Effect::RemoveMute));
    assert!(matches!(effects[3], Effect::PlayStopFeedback));
    assert!(matches!(effects[4], Effect::FinishRecording));
}

#[test]
fn stop_with_no_samples_reports_and_resets() {
    let effects = no_samples_effects();
    assert_eq!(effects.len(), 3);
    match &effects[0] {
        Effect::EmitOverlayError(m) => assert_eq!(m, "No audio captured"),
        _ => panic!("expected the overlay error first"),
    }
    assert!(matches!(effects[1], Effect::HideOverlay));
    assert!(matches!(effects[2], Effect::SetTray(TrayIconState::Idle)));
}

#[test]
fn blank_final_text_is_a_silent_reset() {
    let finalized = FinalizedText {
        final_text: "   ".to_string(),
        rewritten: None,
        prompt_used: None,
    };
    match delivery_plan("raw", finalized) {
        StopOutcome::Silent(effects) => {
            assert_eq!(effects.len(), 2);
            assert!(matches!(effects[0], Effect::HideOverlay));
            assert!(matches!(effects[1], Effect::SetTray(TrayIconState::Idle)));
        }
        _ => panic!("a blank final text must not be delivered"),
    }
}

#[test]
fn final_text_is_delivered_and_persisted() {
    let finalized = FinalizedText {
        final_text: "hello".to_string(),
        rewritten: Some("hello".to_string()),
        prompt_used: Some("Fix: ${output}".to_string()),
    };
    match delivery_plan("raw hello", finalized) {
        StopOutcome::Deliver {
            paste_text,
            history_raw,
            history_rewritten,
            history_prompt,
            effects_after_paste,
        } => {
            assert_eq!(paste_text, "hello");
            assert_eq!(history_raw, "raw hello");
            assert_eq!(history_rewritten, Some("hello".to_string()));
            assert_eq!(history_prompt, Some("Fix: ${output}".to_string()));
            assert_eq!(effects_after_paste.len(), 2);
            assert!(matches!(effects_after_paste[0], Effect::HideOverlay));
            assert!(matches!(effects_after_paste[1], Effect::SetTray(TrayIconState::Idle)));
        }
        _ => panic!("expected delivery"),
    }
}

#[test]
fn wav_data_uri_has_the_exact_container_bytes() {
    let empty: Vec<i16> = Vec::new();
    assert_eq!(
        encode_audio_to_wav_base64(&empty),
        "data:audio/wav;base64,UklGRiQAAABXQVZFZm10IBAAAAABAAEAgD4AAAB9AAACABAAZGF0YQAAAAA="
    );
    let samples: Vec<i16> = vec![0, 1, -1, 12345];
    assert_eq!(
        encode_audio_to_wav_base64(&samples),
        "data:audio/wav;base64,UklGRiwAAABXQVZFZm10IBAAAAABAAEAgD4AAAB9AAACABAAZGF0YQgAAAAAAAEA//85MA=="
    );
}
