use avu::backend_events::{
    classify_backend_event, compact_tool_label, event_kind_for_class, spoken_progress_for_event,
    BackendEventClass, BackendTurnRequest,
};
use avu::domain::EventKind;

#[test]
fn text_turn_preserves_prompt_exactly() {
    let request = BackendTurnRequest::text("/tools && run all backend capabilities");

    assert_eq!(request.backend_prompt(), "/tools && run all backend capabilities");
}

#[test]
fn voice_turn_adds_context_without_removing_user_prompt_or_tools() {
    let request = BackendTurnRequest::voice("use browser tool then /status", "turn-123");
    let prompt = request.backend_prompt();

    assert!(prompt.contains("voice_mode=\"true\""));
    assert!(prompt.contains("turn_id=\"turn-123\""));
    assert!(prompt.contains("Keep full Hermes/OpenClaw tool, agent, permission, and gateway access"));
    assert!(prompt.ends_with("use browser tool then /status"));
}

#[test]
fn classifies_permission_progress_final_and_speaking_events() {
    assert_eq!(
        classify_backend_event("approval requested for terminal command"),
        Some(BackendEventClass::PermissionRequested)
    );
    assert_eq!(
        classify_backend_event("tool dispatch start: browser.open"),
        Some(BackendEventClass::ToolStarted)
    );
    assert_eq!(
        classify_backend_event("tool result: browser.open complete"),
        Some(BackendEventClass::ToolFinished)
    );
    assert_eq!(
        classify_backend_event("final response ready for turn"),
        Some(BackendEventClass::FinalResponse)
    );
    assert_eq!(classify_backend_event("audio playback ended"), Some(BackendEventClass::SpeakingEnded));
    assert_eq!(
        classify_backend_event("repeated_exact_failure_warning; count=2"),
        Some(BackendEventClass::Warning)
    );
    assert_eq!(
        classify_backend_event("tools.voice_mode: tts failed: timeout"),
        Some(BackendEventClass::Error)
    );
    assert_eq!(
        classify_backend_event("session failed while processing turn"),
        Some(BackendEventClass::Error)
    );
    assert_eq!(
        classify_backend_event("warning: tts failed with exception"),
        Some(BackendEventClass::Error)
    );
    assert_eq!(
        classify_backend_event("tool loop warning: browser.open failed"),
        Some(BackendEventClass::Error)
    );
}

#[test]
fn creates_concise_spoken_progress_labels() {
    assert_eq!(
        spoken_progress_for_event(&EventKind::ToolStart, "tool:web.search started"),
        Some("Using web.search".to_string())
    );
    assert_eq!(
        spoken_progress_for_event(&EventKind::ApprovalRequested, "approval requested"),
        Some("Permission needed".to_string())
    );
    assert_eq!(
        spoken_progress_for_event(&EventKind::ResponseStream, "final response ready"),
        Some("Answer ready".to_string())
    );
}

#[test]
fn unrelated_backend_text_is_not_classified() {
    assert_eq!(classify_backend_event("hello there"), None);
    assert_eq!(spoken_progress_for_event(&EventKind::Idle, "idle"), None);
}

#[test]
fn event_classes_map_to_cockpit_event_kinds() {
    assert_eq!(event_kind_for_class(&BackendEventClass::ToolStarted), EventKind::ToolStart);
    assert_eq!(
        event_kind_for_class(&BackendEventClass::PermissionRequested),
        EventKind::ApprovalRequested
    );
    assert_eq!(event_kind_for_class(&BackendEventClass::SpeakingEnded), EventKind::Listening);
    assert_eq!(compact_tool_label("tool:web.search started"), "web.search");
}

#[test]
fn classification_ignores_ascii_letter_case() {
    for label in [
        "Approval Requested for terminal command",
        "TOOL DISPATCH START: browser.open",
        "tts ended",
        "Session Progress",
        "nothing here",
    ] {
        let c = classify_backend_event(label);
        assert_eq!(classify_backend_event(&label.to_ascii_uppercase()), c);
        assert_eq!(classify_backend_event(&label.to_ascii_lowercase()), c);
    }
}
