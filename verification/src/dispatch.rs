//! Action dispatch and recording sequencing: hotkey actions resolve through
//! an immutable registry, and the start/stop handlers of the transcribe
//! action are explicit effect lists whose order carries the
//! microphone-mute and feedback timing rules.
use vstd::prelude::*;

use crate::settings::{Settings, TranscriptionProvider};
use crate::strutil::spec_is_blank;

verus! {

/// Tray icon states the dispatcher drives.
#[derive(Clone, Copy, PartialEq, Eq, Structural, Debug)]
pub enum TrayIconState {
    Recording,
    Transcribing,
    Idle,
}

/// One step the surrounding runtime performs for the dispatcher, in list
/// order. Feedback-and-mute sequencing is a single effect so that mute can
/// never be applied before the feedback sound has finished.
pub enum Effect {
    /// Change the tray icon.
    SetTray(TrayIconState),
    /// Show the recording overlay.
    ShowRecordingOverlay,
    /// Show the transcribing overlay.
    ShowTranscribingOverlay,
    /// Hide the overlay.
    HideOverlay,
    /// Surface an error on the overlay channel.
    EmitOverlayError(String),
    /// Warm the local recognition model up, without blocking.
    InitiateModelLoad,
    /// On a background unit: wait the settling delay, play the start
    /// feedback sound (a no-op when feedback is disabled), then apply the
    /// microphone mute — always in that order.
    SpawnFeedbackThenMute { settle_millis: u64 },
    /// Ask the capture engine to start recording for the binding.
    TryStartRecording,
    /// Remove the microphone mute, before any stop feedback plays.
    RemoveMute,
    /// Play the stop feedback sound (a no-op when feedback is disabled).
    PlayStopFeedback,
    /// Finalize the in-flight capture and retrieve its samples.
    FinishRecording,
}

/// The effects of a transcribe-action start. The tray and overlay change
/// first. In always-on mode the feedback-and-mute unit is spawned before
/// capture start is even requested; in on-demand mode capture start must be
/// confirmed first, so feedback is deferred to `after_start_attempt`.
pub fn start_effects(settings: &Settings) -> (r: Vec<Effect>)
    ensures
        r@ == ({
            let head: Seq<Effect> = if settings.provider is Local {
                seq![Effect::InitiateModelLoad]
            } else {
                Seq::empty()
            };
            let tail: Seq<Effect> = if settings.always_on_microphone {
                seq![
                    Effect::SetTray(TrayIconState::Recording),
                    Effect::ShowRecordingOverlay,
                    (Effect::SpawnFeedbackThenMute { settle_millis: 0 }),
                    Effect::TryStartRecording,
                ]
            } else {
                seq![
                    Effect::SetTray(TrayIconState::Recording),
                    Effect::ShowRecordingOverlay,
                    Effect::TryStartRecording,
                ]
            };
            head + tail
        }),
{
    let mut out: Vec<Effect> = Vec::new();
    if settings.provider == TranscriptionProvider::Local {
        out.push(Effect::InitiateModelLoad);
    }
    out.push(Effect::SetTray(TrayIconState::Recording));
    out.push(Effect::ShowRecordingOverlay);
    if settings.always_on_microphone {
        out.push(Effect::SpawnFeedbackThenMute { settle_millis: 0 });
        out.push(Effect::TryStartRecording);
    } else {
        out.push(Effect::TryStartRecording);
    }
    proof {
        let head: Seq<Effect> = if settings.provider is Local {
            seq![Effect::InitiateModelLoad]
        } else {
            Seq::empty()
        };
        let tail: Seq<Effect> = if settings.always_on_microphone {
            seq![
                Effect::SetTray(TrayIconState::Recording),
                Effect::ShowRecordingOverlay,
                (Effect::SpawnFeedbackThenMute { settle_millis: 0 }),
                Effect::TryStartRecording,
            ]
        } else {
            seq![
                Effect::SetTray(TrayIconState::Recording),
                Effect::ShowRecordingOverlay,
                Effect::TryStartRecording,
            ]
        };
        assert(out@ =~= head + tail);
    }
    out
}

/// The effects after the capture engine answered a start request in
/// on-demand mode: only a confirmed start schedules the settling delay, the
/// feedback sound and the mute, in that order. Always-on mode scheduled
/// them already and a failed start schedules nothing.
pub fn after_start_attempt(settings: &Settings, started: bool) -> (r: Vec<Effect>)
    ensures
        r@ == if !settings.always_on_microphone && started {
            seq![(Effect::SpawnFeedbackThenMute { settle_millis: 100 })]
        } else {
            Seq::<Effect>::empty()
        },
{
    let mut out: Vec<Effect> = Vec::new();
    if !settings.always_on_microphone && started {
        out.push(Effect::SpawnFeedbackThenMute { settle_millis: 100 });
        assert(out@ =~= seq![(Effect::SpawnFeedbackThenMute { settle_millis: 100 })]);
    } else {
        assert(out@ =~= Seq::<Effect>::empty());
    }
    out
}

/// The synchronous effects of a transcribe-action stop, before any
/// asynchronous work: the user sees the transcribing state immediately, the
/// microphone is unmuted before the stop sound so it is audible, and only
/// then is the capture finalized and its samples retrieved.
pub fn stop_effects() -> (r: Vec<Effect>)
    ensures
        r@ == seq![
            Effect::SetTray(TrayIconState::Transcribing),
            Effect::ShowTranscribingOverlay,
            Effect::RemoveMute,
            Effect::PlayStopFeedback,
            Effect::FinishRecording,
        ],
{
    let mut out: Vec<Effect> = Vec::new();
    out.push(Effect::SetTray(TrayIconState::Transcribing));
    out.push(Effect::ShowTranscribingOverlay);
    out.push(Effect::RemoveMute);
    out.push(Effect::PlayStopFeedback);
    out.push(Effect::FinishRecording);
    assert(out@ =~= seq![
        Effect::SetTray(TrayIconState::Transcribing),
        Effect::ShowTranscribingOverlay,
        Effect::RemoveMute,
        Effect::PlayStopFeedback,
        Effect::FinishRecording,
    ]);
    out
}

/// Where the raw transcription comes from.
#[derive(Clone, Copy, PartialEq, Eq, Structural, Debug)]
pub enum TranscriptionRoute {
    /// The local recognition engine.
    LocalEngine,
    /// A remote provider, through the router.
    Remote,
}

/// Routes transcription: the local engine exactly when the local provider
/// is selected, so no remote request is ever planned for it.
pub fn route_transcription(settings: &Settings) -> (r: TranscriptionRoute)
    ensures
        r is LocalEngine <==> settings.provider is Local,
{
    if settings.provider == TranscriptionProvider::Local {
        TranscriptionRoute::LocalEngine
    } else {
        TranscriptionRoute::Remote
    }
}

/// The UI reset that ends every stop cycle: hide the overlay, idle the
/// tray.
pub open spec fn spec_ui_reset() -> Seq<Effect> {
    seq![Effect::HideOverlay, Effect::SetTray(TrayIconState::Idle)]
}

/// The effects when the stop retrieved no samples: the overlay reports
/// that nothing was captured and the UI resets; no transcription is
/// attempted.
pub fn no_samples_effects() -> (r: Vec<Effect>)
    ensures
        r@.len() == 3,
        r@[0] matches Effect::EmitOverlayError(m) && m@ == "No audio captured"@,
        r@.skip(1) == spec_ui_reset(),
{
    let mut out: Vec<Effect> = Vec::new();
    out.push(Effect::EmitOverlayError(String::from_str("No audio captured")));
    out.push(Effect::HideOverlay);
    out.push(Effect::SetTray(TrayIconState::Idle));
    assert(out@.skip(1) =~= spec_ui_reset());
    out
}

/// The effects when capture or transcription failed: the error is surfaced
/// on the overlay channel and the UI resets, exactly once.
pub fn failure_effects(message: String) -> (r: Vec<Effect>)
    ensures
        r@ == seq![Effect::EmitOverlayError(message)] + spec_ui_reset(),
{
    let ghost m = message;
    let mut out: Vec<Effect> = Vec::new();
    out.push(Effect::EmitOverlayError(message));
    out.push(Effect::HideOverlay);
    out.push(Effect::SetTray(TrayIconState::Idle));
    assert(out@ =~= seq![Effect::EmitOverlayError(m)] + spec_ui_reset());
    out
}

/// What happens to a finalized transcription.
pub enum StopOutcome {
    /// The final text is blank: nothing is delivered or persisted, the UI
    /// just resets.
    Silent(Vec<Effect>),
    /// The final text is delivered: the history record is persisted
    /// fire-and-forget, the text is pasted on the UI-affinity context, and
    /// the UI resets afterwards, exactly once.
    Deliver {
        paste_text: String,
        history_raw: String,
        history_rewritten: Option<String>,
        history_prompt: Option<String>,
        effects_after_paste: Vec<Effect>,
    },
}

/// Decides delivery of a finalized transcription: a blank final text is a
/// silent no-op, not an error; otherwise the raw and rewritten texts go to
/// history and the final text is pasted.
pub fn delivery_plan(transcription: &str, finalized: crate::finalize::FinalizedText) -> (r:
    StopOutcome)
    ensures
        spec_is_blank(finalized.final_text@) ==> (r matches StopOutcome::Silent(e) && e@
            == spec_ui_reset()),
        !spec_is_blank(finalized.final_text@) ==> (r matches StopOutcome::Deliver {
            paste_text,
            history_raw,
            history_rewritten,
            history_prompt,
            effects_after_paste,
        } && paste_text@ == finalized.final_text@ && history_raw@ == transcription@
            && history_rewritten == finalized.rewritten && history_prompt
            == finalized.prompt_used && effects_after_paste@ == spec_ui_reset()),
{
    let mut reset: Vec<Effect> = Vec::new();
    reset.push(Effect::HideOverlay);
    reset.push(Effect::SetTray(TrayIconState::Idle));
    assert(reset@ =~= spec_ui_reset());
    if crate::strutil::is_blank(finalized.final_text.as_str()) {
        StopOutcome::Silent(reset)
    } else {
        StopOutcome::Deliver {
            paste_text: finalized.final_text,
            history_raw: transcription.to_owned(),
            history_rewritten: finalized.rewritten,
            history_prompt: finalized.prompt_used,
            effects_after_paste: reset,
        }
    }
}

/// The actions a hotkey binding can be bound to.
#[derive(Clone, Copy, PartialEq, Eq, Structural, Debug)]
pub enum ActionKind {
    /// The full record-transcribe-deliver cycle.
    Transcribe,
    /// A diagnostic action that only logs its invocations.
    Test,
}

/// First action bound to `name` in the registry's entries.
pub open spec fn spec_action_lookup(entries: Seq<(String, ActionKind)>, name: Seq<char>) -> Option<
    ActionKind,
>
    decreases entries.len(),
{
    if entries.len() == 0 {
        None
    } else if entries[0].0@ == name {
        Some(entries[0].1)
    } else {
        spec_action_lookup(entries.drop_first(), name)
    }
}

/// The immutable action registry, resolved once at startup: a mapping from
/// action name to action kind.
pub struct ActionRegistry {
    entries: Vec<(String, ActionKind)>,
}

impl ActionRegistry {
    /// What a name resolves to.
    pub closed spec fn spec_lookup(&self, name: Seq<char>) -> Option<ActionKind> {
        spec_action_lookup(self.entries@, name)
    }

    /// Builds the registry: `transcribe` and `test`, nothing else.
    pub fn new() -> (r: ActionRegistry)
        ensures
            r.spec_lookup("transcribe"@) == Some(ActionKind::Transcribe),
            r.spec_lookup("test"@) == Some(ActionKind::Test),
            forall|n: Seq<char>|
                n != "transcribe"@ && n != "test"@ ==> r.spec_lookup(n) is None,
    {
        let mut entries: Vec<(String, ActionKind)> = Vec::new();
        entries.push((String::from_str("transcribe"), ActionKind::Transcribe));
        entries.push((String::from_str("test"), ActionKind::Test));
        let r = ActionRegistry { entries };
        proof {
            let e = r.entries@;
            assert(e.len() == 2);
            assert(e[0].0@ == "transcribe"@);
            assert(e[1].0@ == "test"@);
            assert(e.drop_first()[0] == e[1]);
            assert(e.drop_first().len() == 1);
            assert(e.drop_first().drop_first() =~= Seq::<(String, ActionKind)>::empty());
            reveal_strlit("transcribe");
            reveal_strlit("test");
            assert("transcribe"@ != "test"@) by {
                assert("transcribe"@.len() == 10);
                assert("test"@.len() == 4);
            };
            assert(spec_action_lookup(e, "transcribe"@) == Some(ActionKind::Transcribe));
            assert(spec_action_lookup(e, "test"@) == spec_action_lookup(e.drop_first(), "test"@));
            assert(spec_action_lookup(e.drop_first(), "test"@) == Some(ActionKind::Test));
            assert forall|n: Seq<char>|
                n != "transcribe"@ && n != "test"@ implies spec_action_lookup(e, n) is None by {
                assert(spec_action_lookup(e, n) == spec_action_lookup(e.drop_first(), n));
                assert(spec_action_lookup(e.drop_first(), n) == spec_action_lookup(
                    e.drop_first().drop_first(),
                    n,
                ));
                assert(spec_action_lookup(e.drop_first().drop_first(), n) is None);
            };
        }
        r
    }

    /// Resolves an action name.
    pub fn lookup(&self, name: &str) -> (r: Option<ActionKind>)
        ensures
            r == self.spec_lookup(name@),
    {
        let n = self.entries.len();
        let mut i: usize = 0;
        assert(self.entries@.skip(0) =~= self.entries@);
        while i < n
            invariant
                i <= n,
                n == self.entries@.len(),
                spec_action_lookup(self.entries@, name@) == spec_action_lookup(
                    self.entries@.skip(i as int),
                    name@,
                ),
            decreases n - i,
        {
            assert(self.entries@.skip(i as int)[0] == self.entries@[i as int]);
            if crate::strutil::str_eq(self.entries[i].0.as_str(), name) {
                return Some(self.entries[i].1);
            }
            assert(self.entries@.skip(i as int).drop_first() =~= self.entries@.skip(i + 1));
            i += 1;
        }
        assert(self.entries@.skip(n as int) =~= Seq::<(String, ActionKind)>::empty());
        None
    }
}

} // verus!
