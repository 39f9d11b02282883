use avu::config::AvuConfig;
use avu::voice::{VoiceEvent, VoiceMachine, VoiceState};
use avu::voice_activation::activation_status;

#[test]
fn voice_turn_returns_to_listening_after_tts_ends() {
    let mut machine = VoiceMachine::default();

    assert_eq!(machine.apply(VoiceEvent::Arm), VoiceState::Listening);
    assert_eq!(machine.apply(VoiceEvent::SpeechStarted), VoiceState::Capturing);
    assert_eq!(machine.apply(VoiceEvent::SilenceDetected), VoiceState::SilencePending);
    assert_eq!(
        machine.apply(VoiceEvent::TranscriptReady { text: "open the dashboard".to_string() }),
        VoiceState::Dispatching
    );
    assert_eq!(machine.last_transcript(), Some("open the dashboard"));
    assert_eq!(machine.apply(VoiceEvent::BackendAccepted), VoiceState::BackendProcessing);
    assert_eq!(machine.apply(VoiceEvent::BackendProgress), VoiceState::BackendProcessing);
    assert_eq!(machine.apply(VoiceEvent::FinalResponseReady), VoiceState::Speaking);
    assert_eq!(machine.apply(VoiceEvent::TtsEnded), VoiceState::Listening);
}

#[test]
fn user_can_interrupt_speaking_and_start_capturing_again() {
    let mut machine = VoiceMachine::default();
    machine.apply(VoiceEvent::Arm);
    machine.apply(VoiceEvent::FinalResponseReady);

    assert_eq!(machine.apply(VoiceEvent::UserInterrupted), VoiceState::Interrupted);
    assert_eq!(machine.apply(VoiceEvent::SpeechStarted), VoiceState::Capturing);
}

#[test]
fn empty_transcript_returns_to_listening_without_dispatch() {
    let mut machine = VoiceMachine::default();
    machine.apply(VoiceEvent::Arm);
    machine.apply(VoiceEvent::SpeechStarted);
    machine.apply(VoiceEvent::SilenceDetected);

    assert_eq!(
        machine.apply(VoiceEvent::TranscriptReady { text: "   ".to_string() }),
        VoiceState::Listening
    );
    assert_eq!(machine.last_transcript(), None);
}

#[test]
fn permission_resolution_resumes_or_returns_to_listening() {
    let mut machine = VoiceMachine::default();
    machine.apply(VoiceEvent::Arm);
    machine.apply(VoiceEvent::BackendAccepted);
    assert_eq!(machine.apply(VoiceEvent::PermissionRequested), VoiceState::WaitingPermission);
    assert_eq!(
        machine.apply(VoiceEvent::PermissionResolved { approved: true }),
        VoiceState::BackendProcessing
    );
    machine.apply(VoiceEvent::PermissionRequested);
    assert_eq!(
        machine.apply(VoiceEvent::PermissionResolved { approved: false }),
        VoiceState::Listening
    );
}

#[test]
fn errors_are_kept_until_reset_rearms() {
    let mut machine = VoiceMachine::new();
    assert_eq!(machine.state(), VoiceState::Idle);
    assert_eq!(
        machine.apply(VoiceEvent::Error { summary: "mic lost".to_string() }),
        VoiceState::ErrorRecovery
    );
    assert_eq!(machine.last_error(), Some("mic lost"));
    assert_eq!(machine.apply(VoiceEvent::Reset), VoiceState::Listening);
    assert_eq!(machine.last_error(), None);
}

#[test]
fn detects_configured_hermes_voice_readiness() {
    let avu = AvuConfig::default();
    let hermes_config = r#"
voice:
  record_key: ctrl+b
stt:
  enabled: true
  provider: local
tts:
  provider: edge
"#;

    let status = activation_status(&avu, "Hermes", Some(hermes_config));

    assert!(status.keyboard_activation_available);
    assert!(status.backend_voice_available);
    assert_eq!(status.record_key.as_deref(), Some("ctrl+b"));
    assert_eq!(status.stt_provider.as_deref(), Some("local"));
    assert_eq!(status.tts_provider.as_deref(), Some("edge"));
}

#[test]
fn missing_backend_voice_config_reports_keyboard_only_path() {
    let avu = AvuConfig::default();

    let status = activation_status(&avu, "Hermes", None);

    assert!(status.keyboard_activation_available);
    assert!(!status.backend_voice_available);
    assert!(status.notes.iter().any(|note| note.contains("voice is not fully configured")));
}
