use avu::backend::{
    alsa_needs_conversion, is_audio_extension, latest_audio, newer_audio, parse_alsa_hardware_devices,
    prompt_args, run_backend_cli_command, run_voice_session, shell_command_step, split_command_args,
    summarize_output, AudioCandidate, BackendStep, FakeBackend, MissingBackend,
};

#[test]
fn fake_backend_exposes_required_capabilities() {
    let probe = FakeBackend.probe();
    assert!(probe.reachable);
    assert!(probe.events);
    assert!(probe.approvals);
    assert!(probe.interrupt);
}

#[test]
fn fake_backend_routes_prompts_for_tui_tests() {
    let result = FakeBackend.route_prompt("/voice");
    assert!(result.ok);
    assert_eq!(result.summary, "fixture backend received: /voice");
}

#[test]
fn missing_backend_rejects_prompt_routing() {
    let result = MissingBackend.route_prompt("/voice");
    assert!(!result.ok);
    assert!(result.summary.contains("not found"));
}

#[test]
fn summarize_output_extracts_backend_media_path() {
    let result = summarize_output(true, "[[audio_as_voice]]\nMEDIA:/tmp/avu-voice.ogg\n", "");

    assert!(result.ok);
    assert_eq!(result.summary, "backend generated audio");
    assert_eq!(result.audio_path, Some("/tmp/avu-voice.ogg".to_string()));
}

#[test]
fn parses_alsa_hardware_devices_from_aplay_output() {
    let text = "**** List of PLAYBACK Hardware Devices ****\ncard 0: I82801AAICH [Intel 82801AA-ICH], device 0: Intel ICH [Intel ICH]\n  Subdevices: 1/1\ncard 2: USB [USB Audio], device 3: Speaker [USB Speaker]\n";

    let devices = parse_alsa_hardware_devices(text);

    assert_eq!(devices, vec!["hw:0,0", "hw:2,3"]);
}

#[test]
fn summarize_output_prefers_reporting_line_and_stderr_order() {
    let result = summarize_output(false, "\n  MEDIA:/a.wav  \n", "  boom happened \n");
    assert!(!result.ok);
    assert_eq!(result.summary, "boom happened");
    assert_eq!(result.audio_path, Some("/a.wav".to_string()));

    let empty_ok = summarize_output(true, "", "");
    assert_eq!(empty_ok.summary, "backend command completed");
    assert_eq!(empty_ok.audio_path, None);

    let empty_failed = summarize_output(false, "   \n", "");
    assert_eq!(empty_failed.summary, "backend command failed without output");
}

#[test]
fn split_command_args_groups_quotes_and_escapes() {
    assert_eq!(
        split_command_args("voice on \"two words\" a\\ b").unwrap(),
        vec!["voice", "on", "two words", "a b"]
    );
    assert_eq!(
        split_command_args("say 'unterminated").unwrap_err(),
        "unterminated quote in backend command"
    );
    assert_eq!(split_command_args("trailing\\").unwrap(), vec!["trailing\\"]);
    assert!(split_command_args("   ").unwrap().is_empty());
}

#[test]
fn backend_cli_command_checks_backend_and_arguments() {
    match run_backend_cli_command("hermes", true, "  /voice on ") {
        BackendStep::Run { program, args } => {
            assert_eq!(program, "hermes");
            assert_eq!(args, vec!["voice", "on"]);
        }
        BackendStep::Done(_) => panic!("expected a command to run"),
    }
    match run_backend_cli_command("fake", true, "voice on") {
        BackendStep::Done(result) => {
            assert!(!result.ok);
            assert_eq!(result.summary, "backend CLI command requires Hermes or OpenClaw");
        }
        BackendStep::Run { .. } => panic!("fake backend has no CLI"),
    }
    match run_backend_cli_command("openclaw", false, "status") {
        BackendStep::Done(result) => {
            assert_eq!(result.summary, "openclaw command was not found on PATH");
        }
        BackendStep::Run { .. } => panic!("command is missing"),
    }
    match run_backend_cli_command("hermes", true, "  // ") {
        BackendStep::Done(result) => assert_eq!(result.summary, "empty backend command"),
        BackendStep::Run { .. } => panic!("empty command"),
    }
    match run_backend_cli_command("hermes", true, "say \"oops") {
        BackendStep::Done(result) => {
            assert_eq!(result.summary, "unterminated quote in backend command")
        }
        BackendStep::Run { .. } => panic!("open quote"),
    }
}

#[test]
fn voice_session_runs_only_for_hermes() {
    match run_voice_session("hermes", true) {
        BackendStep::Run { program, args } => {
            assert_eq!(program, "hermes");
            assert_eq!(args, vec!["--continue", "avu-tui", "--tui"]);
        }
        BackendStep::Done(_) => panic!("hermes runs its TUI"),
    }
    match run_voice_session("openclaw", true) {
        BackendStep::Done(result) => {
            assert_eq!(result.summary, "OpenClaw voice handoff is not available through Avu yet")
        }
        BackendStep::Run { .. } => panic!("openclaw has no voice handoff"),
    }
    match run_voice_session("missing", true) {
        BackendStep::Done(result) => {
            assert_eq!(result.summary, "voice requires a live Hermes backend on PATH")
        }
        BackendStep::Run { .. } => panic!("no backend"),
    }
}

#[test]
fn prompt_args_follow_each_backend() {
    assert_eq!(prompt_args("hermes", "hi"), vec!["--continue", "avu-tui", "--oneshot", "hi"]);
    assert_eq!(prompt_args("openclaw", "hi"), vec!["agent", "--message", "hi"]);
    assert_eq!(prompt_args("other", "hi"), vec!["hi"]);
}

#[test]
fn audio_helpers_pick_new_and_latest_files() {
    let older = AudioCandidate { path: "/a.ogg".to_string(), modified: 10 };
    let newer = AudioCandidate { path: "/b.ogg".to_string(), modified: 20 };
    assert_eq!(newer_audio(Some(&older), Some(&newer)), Some(&"/b.ogg".to_string()));
    assert_eq!(newer_audio(Some(&newer), Some(&older)), None);
    assert_eq!(newer_audio(None, Some(&older)), Some(&"/a.ogg".to_string()));
    let tie = AudioCandidate { path: "/c.ogg".to_string(), modified: 20 };
    assert_eq!(latest_audio(&vec![older.clone(), newer.clone(), tie]), Some(2));
    assert_eq!(latest_audio(&Vec::new()), None);
    assert!(is_audio_extension("MP3"));
    assert!(is_audio_extension("m4a"));
    assert!(!is_audio_extension("txt"));
    assert!(!alsa_needs_conversion("WAV"));
    assert!(alsa_needs_conversion("ogg"));
}

#[test]
fn shell_command_step_trims_and_refuses_empty() {
    match shell_command_step("  printf avu-cmd  ", false) {
        BackendStep::Run { program, args } => {
            assert_eq!(program, "sh");
            assert_eq!(args, vec!["-lc", "printf avu-cmd"]);
        }
        BackendStep::Done(_) => panic!("command runs"),
    }
    match shell_command_step("   ", false) {
        BackendStep::Done(result) => assert_eq!(result.summary, "empty shell command"),
        BackendStep::Run { .. } => panic!("empty command"),
    }
}

#[test]
fn missing_backend_probe_reports_no_capability() {
    let probe = MissingBackend.probe();
    assert_eq!(probe.backend, avu::domain::BackendKind::Missing);
    assert!(!probe.reachable);
    assert!(!probe.events);
    assert!(!probe.approvals);
    assert!(!probe.interrupt);
    assert!(!probe.pause_resume);
    assert!(!probe.sessions_list);
    assert!(!probe.transcript);
    assert!(!probe.wake_available);
    assert_eq!(probe.permission_posture, avu::domain::PermissionPosture::ObserveOnly);
    assert_eq!(probe.notes, vec!["backend command was not found on PATH".to_string()]);
}

#[test]
fn open_quotes_are_rejected_and_plain_lines_split_on_whitespace() {
    assert!(split_command_args("say \"it's fine\"").is_ok());
    assert!(split_command_args("say 'a\" b'").is_ok());
    assert!(split_command_args("say 'a' \"b").is_err());
    let plain = "  status\t--all \n now ";
    assert_eq!(
        split_command_args(plain).unwrap(),
        plain.split_whitespace().map(String::from).collect::<Vec<String>>()
    );
}

#[test]
fn failed_backend_steps_carry_no_audio_or_events() {
    for step in [
        run_backend_cli_command("hermes", true, "  / "),
        run_backend_cli_command("fake", true, "voice on"),
        run_backend_cli_command("openclaw", false, "status"),
        run_backend_cli_command("hermes", true, "say \"oops"),
        run_voice_session("hermes", false),
        run_voice_session("openclaw", true),
        run_voice_session("fake", true),
    ] {
        match step {
            BackendStep::Done(result) => {
                assert!(!result.ok);
                assert!(result.audio_path.is_none());
                assert!(result.events.is_empty());
            }
            BackendStep::Run { .. } => panic!("expected a failure"),
        }
    }
}

#[test]
fn fake_backend_cockpit_is_the_full_fixture() {
    let probe = FakeBackend.probe();
    assert_eq!(probe.backend, avu::domain::BackendKind::Fake);
    assert!(probe.sessions_list && probe.transcript && !probe.wake_available);
    assert_eq!(probe.permission_posture, avu::domain::PermissionPosture::RouteApprovalResponses);
    assert_eq!(probe.notes, vec!["fixture backend: safe for setup rehearsal".to_string()]);
    let state = FakeBackend.cockpit_state();
    assert_eq!(state.app_name, "Avu");
    assert_eq!(state.mode, avu::domain::CockpitMode::ApprovalNeeded);
    assert_eq!(state.backend_label, "HERMES/FIXTURE");
    assert_eq!(state.model_label, "local");
    assert_eq!(state.voice_label, "LISTENING");
    assert_eq!((state.tools_active, state.cpu_percent, state.memory_percent), (2, 12, 28));
    let labels: Vec<&str> = state.events.iter().map(|e| e.label.as_str()).collect();
    assert_eq!(
        labels,
        vec!["listening", "wake_word", "processing", "tool:web.search", "tool:weather", "approval:terminal", "response_stream"]
    );
    let approval = state.pending_approval.unwrap();
    assert_eq!(approval.id, "approval-fixture-001");
    assert_eq!(approval.command.as_deref(), Some("rm -rf build-cache"));
    assert_eq!(approval.severity, avu::domain::Severity::Destructive);
    assert!(approval.requires_second_confirmation);
}

#[test]
fn missing_backend_cockpit_is_disconnected_and_reports_nothing() {
    let state = MissingBackend.cockpit_state();
    assert_eq!(state.app_name, "Avu");
    assert_eq!(state.mode, avu::domain::CockpitMode::Disconnected);
    assert_eq!(state.backend, avu::domain::BackendKind::Missing);
    assert_eq!(state.backend_label, "BACKEND");
    assert_eq!(state.model_label, "unreported");
    assert_eq!(state.voice_label, "unreported");
    assert_eq!((state.tools_active, state.cpu_percent, state.memory_percent), (0, 0, 0));
    assert!(!state.capabilities.reachable);
    assert_eq!(state.capabilities.notes, vec!["backend command was not found on PATH".to_string()]);
    assert_eq!(state.events.len(), 1);
    assert_eq!(state.events[0].kind, avu::domain::EventKind::Warning);
    assert_eq!(state.events[0].label, "live backend unavailable");
    assert_eq!(state.modules.len(), 7);
    assert_eq!(state.modules[3].detail, "unreachable");
    assert_eq!(state.modules[2].detail, "unavailable");
    assert!(state.pending_approval.is_none());
}
