use avu::domain::{CockpitEvent, EventKind};
use avu::runtime::{
    hermes_default_profile, hermes_gateway_notes, hermes_log_events_from_text, keep_recent_events,
    model_from_backend, model_from_hermes_config, parse_hermes_log_line, parse_hermes_log_line_at,
    openclaw_log_event, parse_openclaw_log_json, voice_from_hermes_config, Reported, RuntimeSnapshot,
};
use avu::runtime::{
    command_json_from_output, hermes_snapshot_from, json_bool, json_string, openclaw_log_events_from_text,
    openclaw_snapshot_from,
};
use serde_json::Value;

#[test]
fn missing_metric_stays_unreported() {
    let snapshot = RuntimeSnapshot::missing("hermes");
    assert_eq!(snapshot.model_label, Reported::Unreported);
}

#[test]
fn model_comes_from_backend_status_before_config_fallback() {
    let status: Option<Value> = Some(serde_json::from_str(r#"{ "model": { "model": "gpt-5.4" } }"#).unwrap());
    assert_eq!(
        model_from_backend(&status, None, Some("fallback-model"), &Vec::new()),
        Reported::Value("gpt-5.4".to_string())
    );
}

#[test]
fn model_prefers_recent_log_activity() {
    let status: Option<Value> =
        Some(serde_json::from_str(r#"{ "model": { "model": "old-default" } }"#).unwrap());
    let events = vec![CockpitEvent::now(
        EventKind::Processing,
        "conversation turn: model=gemini-3.1-flash-lite-preview provider=gemini",
    )];
    assert_eq!(
        model_from_backend(&status, None, None, &events),
        Reported::Value("gemini-3.1-flash-lite-preview".to_string())
    );
}

#[test]
fn model_can_come_from_human_status_text() {
    let status_text = r#"
◆ Environment
  Model:        openrouter/owl-alpha
  Provider:     OpenRouter
"#;
    assert_eq!(
        model_from_backend(&None, Some(status_text), None, &Vec::new()),
        Reported::Value("openrouter/owl-alpha".to_string())
    );
}

#[test]
fn model_can_fall_back_to_backend_config_command() {
    assert_eq!(
        model_from_backend(&None, None, Some("sonnet-llm"), &Vec::new()),
        Reported::Value("sonnet-llm".to_string())
    );
}

#[test]
fn voice_label_comes_from_hermes_config() {
    let config = r#"
tts:
  provider: gemini
  gemini:
    model: gemini-2.5-flash-preview-tts
    voice: Kore
stt:
  enabled: true
  provider: groq
voice:
  record_key: ctrl+b
  auto_tts: false
"#;
    assert_eq!(
        voice_from_hermes_config(Some(config)),
        Reported::Value("STT groq · TTS gemini/Kore · key ctrl+b".to_string())
    );
}

#[test]
fn gateway_notes_detect_profile_token_conflict() {
    let status = r#"
Active: activating (auto-restart) since Tue 2026-06-02 03:05:43 EDT
✗ User gateway service is stopped
Recent gateway health:
  ⚠ telegram: Telegram bot token already in use (PID 741). Stop the other gateway first.
  ⏳ Restart pending: systemd is waiting to relaunch the gateway
Other profiles:
  ✓ portal           — PID 741
"#;
    let notes = hermes_gateway_notes(Some(status), Some("default"));
    assert!(notes.iter().any(|note| note.contains("Telegram bot token already in use")));
    assert!(notes.iter().any(|note| {
        note.contains("hermes --profile portal gateway restart") && note.contains("active profile")
    }));
}

#[test]
fn gateway_notes_treat_stopped_default_conflict_as_last_issue() {
    let status = r#"
Active: inactive (dead) since Tue 2026-06-02 03:14:56 EDT
✗ User gateway service is stopped
Recent gateway health:
  ⚠ Last startup issue: telegram: Telegram bot token already in use (PID 741). Stop the other gateway first.
Other profiles:
  ✓ portal           — PID 115002
"#;
    let notes = hermes_gateway_notes(Some(status), Some("default"));
    assert!(notes.iter().any(|note| note.contains("last startup issue")));
    assert!(notes.iter().any(|note| note.contains("active profile: `portal`")));
}

#[test]
fn gateway_notes_detect_running_service() {
    let notes = hermes_gateway_notes(Some("✓ User gateway service is running"), Some("default"));
    assert!(notes.iter().any(|note| note == "Hermes default gateway is running"));
}

#[test]
fn default_profile_can_come_from_hermes_config() {
    let config = r#"
profile: default
tts:
  provider: gemini
"#;

    assert_eq!(hermes_default_profile(Some(config), None), Some("default".to_string()));
}

#[test]
fn default_profile_prefers_the_environment() {
    assert_eq!(
        hermes_default_profile(Some("profile: default\n"), Some("  work  ")),
        Some("work".to_string())
    );
    assert_eq!(hermes_default_profile(None, Some("   ")), None);
}

#[test]
fn model_from_config_prefers_environment_model() {
    assert_eq!(
        model_from_hermes_config(Some("model: local\n"), Some(" env-model ")),
        Reported::Value("env-model".to_string())
    );
    assert_eq!(model_from_hermes_config(None, None), Reported::Unreported);
}

#[test]
fn keeps_recent_events_in_chronological_order() {
    let mut events = vec![
        CockpitEvent::now(EventKind::Idle, "old idle"),
        CockpitEvent::now(EventKind::Processing, "middle processing"),
        CockpitEvent::now(EventKind::Speaking, "new speaking"),
    ];
    keep_recent_events(&mut events, 2);
    assert_eq!(events[0].label, "middle processing");
    assert_eq!(events[1].label, "new speaking");
}

#[test]
fn parses_hermes_log_line_tool_start() {
    let line = "2026-06-01 12:00:03,456 [INFO] tools: tool dispatch start: web.search";
    let event = parse_hermes_log_line(line);
    assert!(event.is_some());
    assert_eq!(event.as_ref().unwrap().kind, EventKind::ToolStart);
    assert!(event.unwrap().label.contains("web.search"));
}

#[test]
fn parses_hermes_voice_recording_as_listening() {
    let line = "2026-06-01 17:33:44,018 INFO tools.voice_mode: Voice recording started (rate=16000, channels=1)";
    let event = parse_hermes_log_line(line);
    assert_eq!(event.as_ref().unwrap().kind, EventKind::Listening);
}

#[test]
fn parses_hermes_stt_as_processing() {
    let line = "2026-06-01 17:33:44,018 INFO tools.voice_mode: STT transcribing audio with groq";
    let event = parse_hermes_log_line(line);
    assert_eq!(event.as_ref().unwrap().kind, EventKind::Processing);
}

#[test]
fn parses_hermes_tts_as_speaking() {
    let line = "2026-06-01 17:33:44,018 INFO tools.voice_mode: TTS audio playback started with gemini voice Kore";
    let event = parse_hermes_log_line(line);
    assert_eq!(event.as_ref().unwrap().kind, EventKind::Speaking);
}

#[test]
fn parses_hermes_tts_end_as_listening() {
    let line = "2026-06-01 17:33:45,018 INFO tools.voice_mode: audio playback ended; ready for next turn";
    let event = parse_hermes_log_line(line);
    assert_eq!(event.as_ref().unwrap().kind, EventKind::Listening);
}

#[test]
fn parses_hermes_turn_complete_as_response() {
    let line = "2026-06-01 17:33:45,018 INFO agent: final response ready for turn voice-1";
    let event = parse_hermes_log_line(line);
    assert_eq!(event.as_ref().unwrap().kind, EventKind::ResponseStream);
}

#[test]
fn parses_hermes_log_line_tool_finish() {
    let line = "2026-06-01 12:00:05,456 [INFO] tools: tool result: web.search (success)";
    let event = parse_hermes_log_line(line);
    assert!(event.is_some());
    assert_eq!(event.unwrap().kind, EventKind::ToolFinish);
}

#[test]
fn parses_hermes_log_line_approval() {
    let line = "2026-06-01 12:00:10,123 [WARNING] agent: approval requested for rm -rf build-cache";
    let event = parse_hermes_log_line(line);
    assert!(event.is_some());
    assert_eq!(event.unwrap().kind, EventKind::ApprovalRequested);
}

#[test]
fn parses_hermes_log_line_error() {
    let line = "2026-06-01 12:00:15,789 [ERROR] tools: web.search failed: timeout";
    let event = parse_hermes_log_line(line);
    assert!(event.is_some());
    assert_eq!(event.unwrap().kind, EventKind::Error);
}

#[test]
fn parses_hermes_loop_failure_warning_without_error_mode() {
    let line = "2026-06-02 08:01:07,185 [WARNING] repeated_exact_failure_warning; count=2; skill_manage has failed 2 times with identical arguments";
    let event = parse_hermes_log_line(line);
    assert!(event.is_some());
    assert_eq!(event.unwrap().kind, EventKind::Warning);
}

#[test]
fn short_or_blank_hermes_lines_are_skipped() {
    assert!(parse_hermes_log_line("").is_none());
    assert!(parse_hermes_log_line("   ").is_none());
    assert!(parse_hermes_log_line("too short line").is_none());
    let event = parse_hermes_log_line_at("2026-06-01 12:00:03,456 [INFO] tools: tool dispatch start: x", 7);
    assert!(event.is_some());
}

#[test]
fn hermes_log_text_keeps_only_recent_lines() {
    let mut text = String::new();
    for i in 0..30 {
        text.push_str(&format!("2026-06-01 12:00:{:02},000 [INFO] tools: tool dispatch start: t{}\n", i, i));
    }
    let events = hermes_log_events_from_text(&text, 0);
    assert!(events.len() <= 12);
    assert!(!events.is_empty());
    assert!(events.last().unwrap().label.contains("t29"));
}

#[test]
fn parses_openclaw_log_json_tool_start() {
    let json: Value = serde_json::from_str(
        r#"{"timestamp":"2026-06-01T12:00:03.000Z","level":"info","message":"tool:web.search started","type":"session.tool","session_id":"abc123"}"#,
    )
    .unwrap();
    let event = parse_openclaw_log_json(&json);
    assert!(event.is_some());
    assert_eq!(event.as_ref().unwrap().kind, EventKind::ToolStart);
    assert!(event.unwrap().label.contains("web.search"));
}

#[test]
fn parses_openclaw_log_json_approval() {
    let json: Value = serde_json::from_str(
        r#"{"timestamp":"2026-06-01T12:00:10.000Z","level":"warn","message":"approval required for destructive operation","type":"session.operation"}"#,
    )
    .unwrap();
    let event = parse_openclaw_log_json(&json);
    assert!(event.is_some());
    assert_eq!(event.unwrap().kind, EventKind::ApprovalRequested);
}

#[test]
fn parses_openclaw_audio_end_as_listening() {
    let json: Value = serde_json::from_str(
        r#"{"timestamp":"2026-06-01T12:00:12.000Z","level":"info","message":"audio playback ended; ready for next turn","type":"session.audio"}"#,
    )
    .unwrap();
    let event = parse_openclaw_log_json(&json);
    assert!(event.is_some());
    assert_eq!(event.unwrap().kind, EventKind::Listening);
}

#[test]
fn parses_openclaw_session_message_response_before_generic_session_progress() {
    let json: Value = serde_json::from_str(
        r#"{"timestamp":"2026-06-01T12:00:13.000Z","level":"info","message":"response complete","type":"session.message"}"#,
    )
    .unwrap();
    let event = parse_openclaw_log_json(&json);
    assert!(event.is_some());
    assert_eq!(event.unwrap().kind, EventKind::ResponseStream);
}

#[test]
fn hermes_timestamps_and_labels_come_through_the_clock_and_case_helpers() {
    let line = "2026-06-01 12:00:03,456 [INFO] tools: tool dispatch start: web.search";
    let event = parse_hermes_log_line_at(line, 7).unwrap();
    assert_eq!(event.at, 1780315203000);
    assert_eq!(RuntimeSnapshot::missing("hermes").backend_label, "HERMES");
}

#[test]
fn openclaw_events_take_their_rfc3339_time_or_the_fallback() {
    let event = openclaw_log_event(Some("session.tool"), "tool:web.search started", "2026-06-01T12:00:03.000Z", 5)
        .unwrap();
    assert_eq!(event.at, 1780315203000);
    assert_eq!(event.kind, EventKind::ToolStart);
    let fallback = openclaw_log_event(Some("session.tool"), "tool:x started", "not a time", 5).unwrap();
    assert_eq!(fallback.at, 5);
}

#[test]
fn json_bool_takes_the_first_path_that_holds_a_boolean() {
    let doc: Option<Value> =
        Some(serde_json::from_str(r#"{"a":{"b":"yes","c":false},"d":true}"#).unwrap());
    assert_eq!(json_bool(&doc, &["missing", "a.b", "a.c", "d"]), Reported::Value(false));
    assert_eq!(json_bool(&doc, &["d"]), Reported::Value(true));
    assert_eq!(json_bool(&doc, &["a.b", "a"]), Reported::Unreported);
    assert_eq!(json_bool(&None, &["d"]), Reported::Unreported);
}

#[test]
fn json_string_takes_the_first_path_that_holds_a_string() {
    let doc: Option<Value> =
        Some(serde_json::from_str(r#"{"model":{"id":7,"name":"gpt-5.4"},"alt":"other"}"#).unwrap());
    assert_eq!(
        json_string(&doc, &["model.id", "model.name", "alt"]),
        Reported::Value("gpt-5.4".to_string())
    );
    assert_eq!(json_string(&doc, &["model", "model.id"]), Reported::Unreported);
    assert_eq!(json_string(&None, &["alt"]), Reported::Unreported);
}

#[test]
fn openclaw_log_json_keeps_its_timestamp_and_falls_back_to_the_type_label() {
    let json: Value = serde_json::from_str(
        r#"{"timestamp":"2026-06-01T12:00:03.000Z","type":"session.tool"}"#,
    )
    .unwrap();
    let event = parse_openclaw_log_json(&json).unwrap();
    assert_eq!(event.at, 1780315203000);
    assert_eq!(event.kind, EventKind::Processing);
    assert_eq!(event.label, "session.tool");
    let quiet: Value = serde_json::from_str(r#"{"message":"nothing to see","level":"info"}"#).unwrap();
    assert!(parse_openclaw_log_json(&quiet).is_none());
}

#[test]
fn openclaw_log_text_skips_lines_that_are_not_events() {
    let lines = [
        r#"{"timestamp":"2026-06-01T12:00:03.000Z","message":"tool:web.search started","type":"session.tool"}"#,
        "not json at all",
        r#"{"message":"nothing to see"}"#,
        r#"{"timestamp":"2026-06-01T12:00:10.000Z","message":"approval required","type":"session.operation"}"#,
    ];
    let text = lines.join("\n");
    let events = openclaw_log_events_from_text(&text);
    assert_eq!(events.len(), 2);
    assert_eq!(events[0].kind, EventKind::ToolStart);
    assert_eq!(events[0].label, "tool:web.search started");
    assert_eq!(events[0].at, 1780315203000);
    assert_eq!(events[1].kind, EventKind::ApprovalRequested);
    assert_eq!(events[1].at, 1780315210000);
}

#[test]
fn openclaw_log_text_keeps_the_twelve_latest_events() {
    let mut text = String::new();
    for i in 0..14 {
        text.push_str(&format!(
            r#"{{"timestamp":"2026-06-01T12:00:{:02}.000Z","message":"tool t{} started","type":"session.tool"}}"#,
            i, i
        ));
        text.push('\n');
    }
    let events = openclaw_log_events_from_text(&text);
    assert_eq!(events.len(), 12);
    assert_eq!(events[0].label, "tool t2 started");
    assert_eq!(events[11].label, "tool t13 started");
    assert_eq!(events[11].at, 1780315213000);
}

#[test]
fn command_json_needs_success_and_a_document() {
    let doc = command_json_from_output(true, br#"{"running":true}"#).unwrap();
    assert_eq!(doc.pointer("/running").and_then(Value::as_bool), Some(true));
    assert!(command_json_from_output(true, b"not json").is_none());
    assert!(command_json_from_output(false, br#"{"running":true}"#).is_none());
}

#[test]
fn hermes_log_text_reads_only_the_last_thirty_lines() {
    let mut text = String::from("2026-06-01 12:00:00,000 [INFO] tools: tool dispatch start: early\n");
    for _ in 0..30 {
        text.push_str("too short line\n");
    }
    assert!(hermes_log_events_from_text(&text, 0).is_empty());
    let mut text = String::from("2026-06-01 12:00:00,000 [INFO] tools: tool dispatch start: early\n");
    for _ in 0..29 {
        text.push_str("too short line\n");
    }
    let events = hermes_log_events_from_text(&text, 0);
    assert_eq!(events.len(), 1);
    assert!(events[0].label.contains("early"));
}

#[test]
fn snapshots_report_capabilities_and_model_from_status_json() {
    let status: Value = serde_json::from_str(
        r#"{"events":true,"capabilities":{"approvals":false,"events":false},"model":{"id":"m-id","name":"m-name"}}"#,
    )
    .unwrap();
    let r = hermes_snapshot_from(Some(status.clone()), None, None, None, Vec::new(), None, None);
    assert_eq!(r.events, Reported::Value(true));
    assert_eq!(r.approvals, Reported::Value(false));
    assert_eq!(r.interrupt, Reported::Unreported);
    assert_eq!(r.model_label, Reported::Value("m-name".to_string()));
    let gateway: Value = serde_json::from_str(r#"{"capabilities":{"interrupt":true}}"#).unwrap();
    let o = openclaw_snapshot_from(Some(gateway), Some(status), None, Vec::new());
    assert_eq!(o.interrupt, Reported::Value(true));
    assert_eq!(o.events, Reported::Unreported);
    assert_eq!(o.sessions_list, Reported::Unreported);
    assert_eq!(o.model_label, Reported::Value("m-name".to_string()));
}

#[test]
fn model_label_follows_source_priority() {
    let status: Option<Value> = Some(serde_json::from_str(r#"{"routing":{"model":"json-model"}}"#).unwrap());
    let log = vec![CockpitEvent { at: 0, kind: EventKind::Processing, label: "run model=log-model".to_string() }];
    assert_eq!(
        model_from_backend(&status, Some("Model: text-model"), Some("cfg"), &log),
        Reported::Value("log-model".to_string())
    );
    assert_eq!(
        model_from_backend(&status, Some("Model: text-model"), Some("cfg"), &Vec::new()),
        Reported::Value("json-model".to_string())
    );
    assert_eq!(
        model_from_backend(&None, Some("model: text-model"), Some("cfg"), &Vec::new()),
        Reported::Value("text-model".to_string())
    );
    assert_eq!(
        model_from_backend(&None, None, Some("  cfg  "), &Vec::new()),
        Reported::Value("cfg".to_string())
    );
    assert_eq!(model_from_backend(&None, None, Some("   "), &Vec::new()), Reported::Unreported);
}
