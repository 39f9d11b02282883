use avu::domain::{BackendKind, CockpitEvent, CockpitMode, CockpitState, EventKind, PermissionPosture};
use avu::engine::{apply_projection, push_event};
use avu::runtime::{Reported, RuntimeSnapshot};

#[test]
fn live_missing_runtime_does_not_use_fixture_values() {
    let state = CockpitState::from_runtime(RuntimeSnapshot::missing("hermes"));
    assert_eq!(state.backend, BackendKind::Missing);
    assert_eq!(state.model_label, "unreported");
    assert_eq!(state.tools_active, 0);
    assert_eq!(state.cpu_percent, 0);
    assert!(state.pending_approval.is_none());
    assert!(!state.events.iter().any(|event| event.label.contains("tool:web.search")));
}

#[test]
fn live_runtime_uses_reported_model_and_metrics() {
    let mut snapshot = RuntimeSnapshot::missing("hermes");
    snapshot.backend = BackendKind::Hermes;
    snapshot.backend_label = "HERMES".to_string();
    snapshot.reachable = true;
    snapshot.model_label = Reported::Value("local-llm".to_string());
    snapshot.cpu_percent = Reported::Value(31);
    snapshot.memory_percent = Reported::Value(44);
    let state = CockpitState::from_runtime(snapshot);
    assert_eq!(state.model_label, "local-llm");
    assert_eq!(state.cpu_percent, 31);
    assert_eq!(state.memory_percent, 44);
}

#[test]
fn reducer_derives_tool_and_approval_mode_from_events() {
    let mut state = CockpitState::fake_listening();
    state.pending_approval = None;
    state.events.clear();
    push_event(&mut state, CockpitEvent::now(EventKind::ToolStart, "tool:terminal"));
    assert_eq!(state.mode, CockpitMode::ToolActive);
    assert_eq!(state.tools_active, 1);
    push_event(&mut state, CockpitEvent::now(EventKind::ApprovalRequested, "approval:terminal"));
    assert_eq!(state.mode, CockpitMode::ApprovalNeeded);
}

#[test]
fn live_runtime_events_drive_mode_without_overwriting_voice_config() {
    let mut state = CockpitState::from_runtime(RuntimeSnapshot {
        backend: BackendKind::Hermes,
        backend_label: "HERMES".to_string(),
        reachable: true,
        model_label: Reported::Value("model".to_string()),
        voice_label: Reported::Value("STT groq · TTS gemini/Kore".to_string()),
        cpu_percent: Reported::Unreported,
        memory_percent: Reported::Unreported,
        events: Reported::Unreported,
        approvals: Reported::Unreported,
        interrupt: Reported::Unreported,
        pause_resume: Reported::Unreported,
        sessions_list: Reported::Unreported,
        transcript: Reported::Unreported,
        wake_available: Reported::Unreported,
        permission_posture: PermissionPosture::ObserveNotify,
        log_events: vec![CockpitEvent::now(EventKind::Speaking, "TTS audio playback started")],
        notes: vec![],
    });

    apply_projection(&mut state);

    assert_eq!(state.mode, CockpitMode::Speaking);
    assert_eq!(state.voice_label, "STT groq · TTS gemini/Kore");
}

#[test]
fn tool_finish_balances_tool_start() {
    let mut state = CockpitState::fake_listening();
    state.pending_approval = None;
    state.events.clear();
    push_event(&mut state, CockpitEvent::now(EventKind::ToolStart, "tool:a"));
    push_event(&mut state, CockpitEvent::now(EventKind::ToolFinish, "tool:a done"));
    assert_eq!(state.tools_active, 0);
}

#[test]
fn pending_approval_always_shows_approval_mode() {
    let mut state = CockpitState::fake_listening();
    state.events.clear();
    push_event(&mut state, CockpitEvent::now(EventKind::Listening, "ready"));
    assert_eq!(state.mode, CockpitMode::ApprovalNeeded);
}

#[test]
fn projecting_twice_changes_nothing_more() {
    let mut state = CockpitState::fake_listening();
    apply_projection(&mut state);
    let (mode, tools, voice) = (state.mode, state.tools_active, state.voice_label.clone());
    apply_projection(&mut state);
    assert_eq!(state.mode, mode);
    assert_eq!(state.tools_active, tools);
    assert_eq!(state.voice_label, voice);
}
