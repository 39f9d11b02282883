use avu::backend::{BackendCommandEvent, BackendCommandResult, FakeBackend};
use avu::cli::{BackendChoice, TuiArgs};
use avu::config::AvuConfig;
use avu::domain::{BackendKind, CockpitEvent, CockpitMode, CockpitState, EventKind};
use avu::engine::apply_projection;
use avu::tui::{
    apply_prompt_result, apply_refreshed_state, arm_approval, arm_keyboard_wake_with_backend_voice_config,
    backend_activity, finish_refresh, footer_command_text, handle_cockpit_key, handle_input_key,
    handle_text_input_key, handle_wake_intent, is_operator_event, is_wake_prefixed,
    keep_recent_state_events, push_operator_event, route_approval_response, session_started_label,
    try_handle_input_key, visible_activity_range, wrap_activity_label, AfterRefresh, InputMode, Key,
    UiAction, UiOverlay,
};

const WAKE: &str = "hey avu";

fn overlay(mode: Option<InputMode>, input: &str, cursor: usize) -> UiOverlay {
    UiOverlay {
        input_mode: mode,
        input: input.to_string(),
        input_cursor: cursor,
        message: String::new(),
        activity_scroll: 0,
        approval_armed_id: None,
    }
}

fn fake_args() -> TuiArgs {
    TuiArgs { backend: BackendChoice::Fake, ..Default::default() }
}

fn refresh_with_fake(state: &mut CockpitState, overlay: &mut UiOverlay, action: UiAction) {
    match action {
        UiAction::Refresh(after) => {
            apply_refreshed_state(state, FakeBackend.cockpit_state());
            finish_refresh(state, overlay, after);
        }
        _ => panic!("expected a refresh"),
    }
}

#[test]
fn command_mode_routes_slash_prompts_to_backend() {
    let args = fake_args();
    let mut state = CockpitState::fake_listening();
    let mut overlay = overlay(Some(InputMode::Chat), "/voice", 6);
    let mut prompt_inflight = false;

    let action =
        handle_text_input_key(&mut state, &args, &mut overlay, Key::Enter, &mut prompt_inflight, WAKE);

    assert!(matches!(action, UiAction::SendPrompt(ref p) if p == "/voice"));
    assert_eq!(overlay.input_mode, Some(InputMode::Chat));
    assert!(overlay.input.is_empty());
    assert!(overlay.message.contains("sending to backend"));
    assert!(prompt_inflight);
    assert!(state
        .events
        .iter()
        .any(|event| event.kind == EventKind::Processing && event.label.contains("sending: /voice")));
}

#[test]
fn picker_exposes_cmd_and_chat_modes() {
    let args = TuiArgs::default();
    let mut state = CockpitState::fake_listening();
    let mut overlay = overlay(Some(InputMode::Picker), "", 0);
    let mut prompt_inflight = false;

    handle_input_key(&mut state, &args, &mut overlay, Key::Char('c'), &mut prompt_inflight, WAKE);
    assert_eq!(overlay.input_mode, Some(InputMode::Command));

    overlay.input_mode = Some(InputMode::Picker);
    handle_input_key(&mut state, &args, &mut overlay, Key::Char('t'), &mut prompt_inflight, WAKE);
    assert_eq!(overlay.input_mode, Some(InputMode::Chat));

    overlay.input_mode = Some(InputMode::Picker);
    handle_input_key(&mut state, &args, &mut overlay, Key::Char('/'), &mut prompt_inflight, WAKE);
    assert_eq!(overlay.input_mode, Some(InputMode::Slash));
    assert!(overlay.input.is_empty());
    assert!(overlay.message.contains("Slash mode"));
}

#[test]
fn slash_mode_routes_raw_slash_prompt_to_backend() {
    let args = fake_args();
    let mut state = CockpitState::fake_listening();
    let mut overlay = overlay(Some(InputMode::Slash), "status --all", 12);
    let mut prompt_inflight = false;

    let action = handle_input_key(&mut state, &args, &mut overlay, Key::Enter, &mut prompt_inflight, WAKE);

    assert!(matches!(action, UiAction::SendPrompt(ref p) if p == "/status --all"));
    assert_eq!(overlay.input_mode, Some(InputMode::Slash));
    assert!(overlay.input.is_empty());
    assert!(prompt_inflight);
    assert!(overlay.message.contains("sending to backend"));
    assert!(state.events.iter().any(|event| {
        event.kind == EventKind::Processing && event.label.contains("sending: /status --all")
    }));
}

#[test]
fn wake_status_intent_refreshes_locally_without_backend_prompt() {
    let args = fake_args();
    let mut state = CockpitState::fake_listening();
    state.events.clear();
    let mut overlay = overlay(Some(InputMode::Chat), "Hey Avu, status", 15);
    let mut prompt_inflight = false;

    let action = handle_input_key(&mut state, &args, &mut overlay, Key::Enter, &mut prompt_inflight, WAKE);
    assert!(!matches!(action, UiAction::SendPrompt(_)));
    refresh_with_fake(&mut state, &mut overlay, action);

    assert!(!prompt_inflight);
    assert!(overlay.input.is_empty());
    assert!(overlay.message.contains("status refreshed"));
    assert!(state.events.iter().any(|event| {
        event.kind == EventKind::Listening && event.label == "wake intent: status refreshed"
    }));
}

#[test]
fn unknown_wake_intent_is_not_sent_to_backend() {
    let args = fake_args();
    let mut state = CockpitState::fake_listening();
    state.events.clear();
    let mut overlay = overlay(Some(InputMode::Chat), "Hey Avu, write arbitrary backend prompt", 39);
    let mut prompt_inflight = false;

    let action = handle_input_key(&mut state, &args, &mut overlay, Key::Enter, &mut prompt_inflight, WAKE);

    assert!(matches!(action, UiAction::Continue));
    assert!(!prompt_inflight);
    assert!(overlay.message.contains("wake intent ignored"));
    assert!(state
        .events
        .iter()
        .any(|event| event.kind == EventKind::Warning && event.label.contains("wake intent ignored")));
}

#[test]
fn configured_wake_phrase_routes_through_intent_layer() {
    let args = fake_args();
    let mut state = CockpitState::fake_listening();
    state.events.clear();
    let mut overlay = overlay(Some(InputMode::Chat), "Computer, status", 16);
    let mut prompt_inflight = false;
    let prompt = overlay.input.clone();

    let action = handle_wake_intent(&mut state, &mut overlay, &prompt, &args, &mut prompt_inflight, "computer");
    assert!(action.is_some());
    refresh_with_fake(&mut state, &mut overlay, action.unwrap());

    assert!(!prompt_inflight);
    assert!(overlay.message.contains("status refreshed"));
    assert!(state.events.iter().any(|event| {
        event.kind == EventKind::Listening && event.label == "wake intent: status refreshed"
    }));
}

#[test]
fn approval_keys_route_structured_pending_approval_to_backend() {
    let args = TuiArgs { backend: BackendChoice::Hermes, ..Default::default() };
    let mut state = CockpitState::fake_listening();
    state.backend = BackendKind::Hermes;
    if let Some(approval) = state.pending_approval.as_mut() {
        approval.backend = BackendKind::Hermes;
    }
    let mut overlay = UiOverlay::default();
    let mut prompt_inflight = false;

    let sent = route_approval_response(&mut state, &args, &mut overlay, &mut prompt_inflight, "approve");

    assert!(sent.is_none());
    assert!(!prompt_inflight);
    assert!(state.pending_approval.is_some());
    assert!(overlay.message.contains("requires arming"));

    arm_approval(&state, &args, &mut overlay);
    assert_eq!(overlay.approval_armed_id.as_deref(), Some("approval-fixture-001"));

    let sent = route_approval_response(&mut state, &args, &mut overlay, &mut prompt_inflight, "approve");

    assert_eq!(sent.as_deref(), Some("/approve approval-fixture-001"));
    assert!(prompt_inflight);
    assert!(state.pending_approval.is_none());
    assert!(overlay.message.contains("approval approve routed"));
    assert!(state.events.iter().any(|event| {
        event.kind == EventKind::ApprovalRouted && event.label.contains("approval-fixture-001")
    }));
}

#[test]
fn approval_routing_rejects_mismatched_backend_source() {
    let args = TuiArgs { backend: BackendChoice::Hermes, ..Default::default() };
    let mut state = CockpitState::fake_listening();
    let mut overlay = UiOverlay::default();
    let mut prompt_inflight = false;

    arm_approval(&state, &args, &mut overlay);
    let sent = route_approval_response(&mut state, &args, &mut overlay, &mut prompt_inflight, "approve");

    assert!(sent.is_none());
    assert!(!prompt_inflight);
    assert!(state.pending_approval.is_some());
    assert!(overlay.message.contains("observe-only"));
}

#[test]
fn approval_routing_rejects_fixture_spoofing_live_backend() {
    let args = TuiArgs {
        backend: BackendChoice::Hermes,
        fixture: Some("fixtures/approval_destructive.json".to_string()),
        ..Default::default()
    };
    let mut state = CockpitState::fake_listening();
    state.backend = BackendKind::Hermes;
    if let Some(approval) = state.pending_approval.as_mut() {
        approval.backend = BackendKind::Hermes;
    }
    let mut overlay = UiOverlay::default();
    let mut prompt_inflight = false;

    arm_approval(&state, &args, &mut overlay);
    let sent = route_approval_response(&mut state, &args, &mut overlay, &mut prompt_inflight, "approve");

    assert!(sent.is_none());
    assert!(!prompt_inflight);
    assert!(state.pending_approval.is_some());
    assert!(overlay.message.contains("observe-only"));
}

#[test]
fn keyboard_wake_key_arms_listening_state() {
    let mut state = CockpitState::fake_listening();
    state.events.clear();
    let mut overlay = UiOverlay::default();
    let mut prompt_inflight = false;

    let action = handle_cockpit_key(
        &mut state,
        &TuiArgs::default(),
        &mut overlay,
        Key::Char('w'),
        false,
        false,
        &mut prompt_inflight,
    );
    assert!(matches!(action, UiAction::ArmWake));
    arm_keyboard_wake_with_backend_voice_config(&mut state, &mut overlay, &AvuConfig::default(), None);

    assert!(overlay.message.contains("wake armed"));
    assert!(state.events.iter().any(|event| {
        event.kind == EventKind::Listening && event.label.contains("wake: armed keyboard")
    }));
}

#[test]
fn keyboard_wake_reports_configured_hermes_voice_readiness() {
    let mut state = CockpitState::fake_listening();
    state.backend = BackendKind::Hermes;
    state.backend_label = "HERMES".to_string();
    state.events.clear();
    let mut overlay = UiOverlay::default();
    let hermes_config = r#"
voice:
  record_key: ctrl+b
stt:
  enabled: true
  provider: groq
tts:
  provider: gemini
"#;

    arm_keyboard_wake_with_backend_voice_config(
        &mut state,
        &mut overlay,
        &AvuConfig::default(),
        Some(hermes_config),
    );

    assert!(overlay.message.contains("backend voice ready"));
    assert!(state.events.iter().any(|event| {
        event.kind == EventKind::Listening && event.label.contains("wake: armed keyboard")
    }));
}

#[test]
fn footer_renders_visible_cursor_for_text_modes() {
    let overlay = overlay(Some(InputMode::Slash), "status --all", 6);

    let output = footer_command_text(&overlay);

    assert!(output.contains("Slash[6/12]: /status▌ --all"));
}

#[test]
fn input_mode_supports_backspace_and_delete() {
    let args = TuiArgs::default();
    let mut state = CockpitState::fake_listening();
    let mut overlay = overlay(Some(InputMode::Chat), "hello", 5);
    let mut prompt_inflight = false;

    handle_input_key(&mut state, &args, &mut overlay, Key::Backspace, &mut prompt_inflight, WAKE);
    assert_eq!(overlay.input, "hell");
    handle_input_key(&mut state, &args, &mut overlay, Key::Left, &mut prompt_inflight, WAKE);
    handle_input_key(&mut state, &args, &mut overlay, Key::Delete, &mut prompt_inflight, WAKE);
    assert_eq!(overlay.input, "hel");
}

#[test]
fn input_buffer_supports_left_right_home_end_midline_edit() {
    let args = TuiArgs::default();
    let mut state = CockpitState::fake_listening();
    let mut overlay = overlay(Some(InputMode::Chat), "alpha gamma", 5);
    let mut prompt_inflight = false;

    for key in [
        Key::Char(' '),
        Key::Char('b'),
        Key::Char('e'),
        Key::Char('t'),
        Key::Char('a'),
        Key::End,
        Key::Left,
        Key::Backspace,
        Key::Right,
        Key::Char('!'),
        Key::Home,
        Key::Delete,
    ] {
        handle_input_key(&mut state, &args, &mut overlay, key, &mut prompt_inflight, WAKE);
    }

    assert_eq!(overlay.input, "lpha beta gama!");
    assert_eq!(overlay.input_cursor, 0);
}

#[test]
fn chat_preserves_next_message_while_backend_is_busy() {
    let args = fake_args();
    let mut state = CockpitState::fake_listening();
    let mut overlay = overlay(Some(InputMode::Chat), "next message", 12);
    let mut prompt_inflight = true;

    handle_input_key(&mut state, &args, &mut overlay, Key::Enter, &mut prompt_inflight, WAKE);

    assert_eq!(overlay.input, "next message");
    assert!(overlay.message.contains("backend still running"));
    assert!(overlay.message.contains("draft preserved"));
}

#[test]
fn successful_backend_reply_returns_cockpit_to_listening() {
    let mut state = CockpitState::fake_listening();
    state.pending_approval = None;
    state.events.clear();
    state.events.push(CockpitEvent::now(EventKind::Processing, "sending: hello backend"));
    let mut overlay = UiOverlay::default();

    apply_prompt_result(
        &mut state,
        &mut overlay,
        BackendCommandResult { ok: true, summary: "done".to_string(), audio_path: None, events: Vec::new() },
    );
    apply_projection(&mut state);

    assert_eq!(state.mode, CockpitMode::Listening);
    assert!(state.events.iter().any(|event| {
        event.kind == EventKind::Listening && event.label == "ready: listening for next turn"
    }));
}

#[test]
fn backend_reply_preserves_full_progress_events() {
    let mut state = CockpitState::fake_listening();
    state.pending_approval = None;
    state.events.clear();
    let mut overlay = UiOverlay::default();

    apply_prompt_result(
        &mut state,
        &mut overlay,
        BackendCommandResult {
            ok: true,
            summary: "session avu-tui running".to_string(),
            audio_path: None,
            events: vec![
                BackendCommandEvent {
                    kind: EventKind::Processing,
                    label: "session avu-tui running".to_string(),
                },
                BackendCommandEvent {
                    kind: EventKind::ToolStart,
                    label: "tool dispatch start: search.files with full generated command text".to_string(),
                },
                BackendCommandEvent {
                    kind: EventKind::ResponseStream,
                    label: "final response ready: full final answer text".to_string(),
                },
            ],
        },
    );

    assert!(state.events.iter().any(|event| {
        event.kind == EventKind::ToolStart
            && event.label.contains("tool dispatch start: search.files with full generated command text")
    }));
    assert!(state.events.iter().any(|event| {
        event.kind == EventKind::ResponseStream
            && event.label.contains("final response ready: full final answer text")
    }));
    assert!(overlay.message.contains("backend replied"));
}

#[test]
fn state_event_retention_keeps_full_activity_history_beyond_visible_rows() {
    let mut state = CockpitState::fake_listening();
    state.events = (0..40)
        .map(|index| CockpitEvent::now(EventKind::Processing, &format!("event-{index}")))
        .collect();

    keep_recent_state_events(&mut state, 12);

    assert_eq!(state.events.len(), 40);
    assert_eq!(state.events.first().map(|event| event.label.as_str()), Some("event-0"));
}

#[test]
fn refresh_drops_stale_ready_when_backend_reports_active_state() {
    let mut state = CockpitState::fake_listening();
    state.pending_approval = None;
    state.events.clear();
    state.events.push(CockpitEvent::now(EventKind::Listening, "ready: listening for next turn"));

    let mut refreshed = CockpitState::fake_listening();
    refreshed.pending_approval = None;
    refreshed.events.clear();
    refreshed
        .events
        .push(CockpitEvent::now(EventKind::ApprovalRequested, "approval requested for shell command"));

    apply_refreshed_state(&mut state, refreshed);
    apply_projection(&mut state);

    assert_eq!(state.mode, CockpitMode::ApprovalNeeded);
    assert!(!state.events.iter().any(|event| event.label == "ready: listening for next turn"));
}

#[test]
fn refresh_drops_stale_ready_when_backend_reports_speaking() {
    let mut state = CockpitState::fake_listening();
    state.pending_approval = None;
    state.events.clear();
    state.events.push(CockpitEvent::now(EventKind::Listening, "ready: listening for next turn"));

    let mut refreshed = CockpitState::fake_listening();
    refreshed.pending_approval = None;
    refreshed.events.clear();
    refreshed
        .events
        .push(CockpitEvent::now(EventKind::Speaking, "tools.voice_mode: TTS audio playback started"));

    apply_refreshed_state(&mut state, refreshed);
    apply_projection(&mut state);

    assert_eq!(state.mode, CockpitMode::Speaking);
    assert!(!state.events.iter().any(|event| event.label == "ready: listening for next turn"));
}

#[test]
fn input_mode_can_scroll_activity_log() {
    let args = TuiArgs::default();
    let mut state = CockpitState::fake_listening();
    let mut overlay = overlay(Some(InputMode::Chat), "", 0);
    let mut prompt_inflight = false;

    handle_input_key(&mut state, &args, &mut overlay, Key::PageUp, &mut prompt_inflight, WAKE);
    assert_eq!(overlay.activity_scroll, 1);

    handle_input_key(&mut state, &args, &mut overlay, Key::PageDown, &mut prompt_inflight, WAKE);
    assert_eq!(overlay.activity_scroll, 0);
}

#[test]
fn refresh_preserves_operator_events() {
    let mut state = CockpitState::fake_listening();
    state.events.clear();
    push_operator_event(&mut state, EventKind::ResponseStream, "cmd: printf avu");

    apply_refreshed_state(&mut state, FakeBackend.cockpit_state());

    assert!(state.events.iter().any(|event| event.label == "cmd: printf avu"));
}

#[test]
fn typing_then_backspace_restores_the_input() {
    let mut overlay = overlay(Some(InputMode::Chat), "héllo", 2);
    overlay.insert_char('ß');
    assert_eq!(overlay.input, "héßllo");
    assert_eq!(overlay.input_cursor, 3);
    overlay.backspace();
    assert_eq!(overlay.input, "héllo");
    assert_eq!(overlay.input_cursor, 2);
    overlay.move_right();
    overlay.move_right();
    overlay.move_right();
    overlay.move_right();
    assert_eq!(overlay.input_cursor, 5);
    overlay.move_left();
    assert_eq!(overlay.input_cursor, 4);
}

#[test]
fn long_input_shows_a_window_around_the_cursor() {
    let text: String = "abcdefghij".repeat(10);
    let overlay = overlay(Some(InputMode::Chat), &text, 50);
    let shown = overlay.visible_input_with_cursor(10);
    assert_eq!(shown, "…fghij▌abcde…");
    let empty = UiOverlay::default();
    assert_eq!(empty.visible_input_with_cursor(64), "▌");
    let at_end = self::overlay(Some(InputMode::Command), "ls", 2);
    assert_eq!(footer_command_text(&at_end), "  │ CMD[2/2]: ls▌");
    let idle = UiOverlay::default();
    assert_eq!(footer_command_text(&idle), "  │ PRESS : for CMD/Chat");
}

#[test]
fn wake_prefix_needs_a_separator_after_the_phrase() {
    assert!(is_wake_prefixed("  Hey Avu, status", "hey avu"));
    assert!(is_wake_prefixed("hey avu", "hey avu"));
    assert!(!is_wake_prefixed("hey avuish", "hey avu"));
    assert!(!is_wake_prefixed("status", "  "));
}

#[test]
fn operator_events_are_recognised_by_their_prefix() {
    assert!(is_operator_event("cmd: ls"));
    assert!(is_operator_event("Avu session started — Fake backend"));
    assert!(!is_operator_event("tool dispatch start"));
    assert_eq!(session_started_label(BackendChoice::Fake), "Avu session started — Fake backend");
}

#[test]
fn cockpit_keys_quit_scroll_and_pick_input() {
    let args = TuiArgs::default();
    let mut state = CockpitState::fake_listening();
    let mut overlay = UiOverlay::default();
    let mut busy = false;
    assert!(matches!(
        handle_cockpit_key(&mut state, &args, &mut overlay, Key::Char('q'), false, false, &mut busy),
        UiAction::Quit
    ));
    assert!(matches!(
        handle_cockpit_key(&mut state, &args, &mut overlay, Key::Char('c'), true, false, &mut busy),
        UiAction::Quit
    ));
    handle_cockpit_key(&mut state, &args, &mut overlay, Key::Up, false, false, &mut busy);
    assert_eq!(overlay.activity_scroll, 1);
    handle_cockpit_key(&mut state, &args, &mut overlay, Key::Char(':'), false, false, &mut busy);
    assert_eq!(overlay.input_mode, Some(InputMode::Picker));
    let mut overlay = UiOverlay::default();
    assert!(matches!(
        handle_cockpit_key(&mut state, &args, &mut overlay, Key::Char('s'), false, true, &mut busy),
        UiAction::Continue
    ));
    assert!(matches!(
        handle_cockpit_key(&mut state, &args, &mut overlay, Key::Char('s'), false, false, &mut busy),
        UiAction::SpawnRefresh
    ));
    let before = state.events.len();
    assert!(matches!(
        handle_cockpit_key(&mut state, &args, &mut overlay, Key::Char('b'), true, false, &mut busy),
        UiAction::VoiceHandoff
    ));
    assert_eq!(state.events.len(), before + 1);
}

#[test]
fn picker_status_asks_for_a_refresh() {
    let args = TuiArgs::default();
    let mut state = CockpitState::fake_listening();
    let mut overlay = overlay(Some(InputMode::Picker), "", 0);
    let mut busy = false;
    let action = try_handle_input_key(&mut state, &args, &mut overlay, Key::Char('s'), &mut busy, WAKE);
    assert!(matches!(action, Some(UiAction::Refresh(AfterRefresh::PickerStatus))));
    refresh_with_fake(&mut state, &mut overlay, action.unwrap());
    assert_eq!(overlay.input_mode, None);
    assert_eq!(overlay.message, "status refreshed from backend");
}

#[test]
fn activity_log_shows_recent_rows_and_wraps_long_labels() {
    assert_eq!(visible_activity_range(40, 0), (28, 40));
    assert_eq!(visible_activity_range(40, 3), (28, 37));
    assert_eq!(visible_activity_range(5, 9), (0, 5));
    let rows = wrap_activity_label(
        "backend: long reply with enough content to wrap across rows and still show tail-marker",
        42,
    );
    assert!(rows.len() > 1);
    assert!(rows.iter().all(|r| r.chars().count() <= 30));
    assert!(rows.concat().contains("tail-marker"));
    assert_eq!(wrap_activity_label("", 42), Vec::<String>::new());
    assert_eq!(backend_activity(&CockpitState::fake_listening()), 95);
}

#[test]
fn refresh_keeps_at_most_two_hundred_newest_events() {
    let mut state = CockpitState::fake_listening();
    state.events = (0..150).map(|i| CockpitEvent::now(EventKind::Idle, &format!("cmd: {i}"))).collect();
    let mut refreshed = CockpitState::fake_listening();
    refreshed.events = (0..100).map(|i| CockpitEvent::now(EventKind::Idle, &format!("backend event {i}"))).collect();
    apply_refreshed_state(&mut state, refreshed);
    assert_eq!(state.events.len(), 200);
    assert_eq!(state.events.first().unwrap().label, "backend event 50");
    assert_eq!(state.events.last().unwrap().label, "cmd: 149");
}

#[test]
fn control_sheet_rows_follow_the_pending_approval() {
    let rows = avu::tui::control_sheet_rows(None);
    assert_eq!(rows.len(), 2);
    assert_eq!(rows[0].0, "KEYS ");
    assert_eq!(rows[1], ("CONTROL ".to_string(), "no pending backend approval; approval keys disabled".to_string()));
    let approval = avu::domain::ApprovalRequest {
        id: "a1".to_string(),
        backend: BackendKind::Hermes,
        summary: "delete the build directory".to_string(),
        command: None,
        severity: avu::domain::Severity::Destructive,
        requires_second_confirmation: false,
    };
    let rows = avu::tui::control_sheet_rows(Some(&approval));
    assert_eq!(rows[1].1, "delete the build directory");
    assert_eq!(rows[2].1, "backend action");
    assert_eq!(rows[3].0, "SAFETY   ");
    assert_eq!(rows[3].1, format!("[a] arm {:?}  [A] confirm  [r] {:?}", avu::intent::Intent::Approve, avu::intent::Intent::Reject));
    let low = avu::domain::ApprovalRequest {
        severity: avu::domain::Severity::Safe,
        command: Some("rm -rf build".to_string()),
        ..approval
    };
    let rows = avu::tui::control_sheet_rows(Some(&low));
    assert_eq!(rows[2].1, "rm -rf build");
    assert_eq!(rows[3].1, "[a] Approve via backend  [r] Reject via backend");
}
