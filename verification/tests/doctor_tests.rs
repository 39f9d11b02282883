use avu::doctor::{
    audio_player_check, audio_player_names, audio_sink_check, audio_source_check, audio_source_detail,
    base_checks, classify_hermes_tui_probe, compact_probe_detail, doctor_report,
    first_non_monitor_source_line, hermes_tui_handoff_check, hermes_tui_voice_command_check,
    native_microphone_check, non_monitor_source_seen, tui_probe_wanted, voice_config_detail,
};
use avu::domain::CapabilitySnapshot;
use avu::voice_activation::VoiceActivationStatus;

#[test]
fn hermes_tui_probe_reports_npm_install_failure_with_repair_command() {
    let result =
        classify_hermes_tui_probe("Installing TUI dependencies…\nnpm install failed.\nENOTEMPTY");

    assert!(!result.ok);
    assert!(result.detail.contains("rm -rf node_modules package-lock.json"));
}

#[test]
fn hermes_tui_probe_reports_voice_build_failure() {
    let result = classify_hermes_tui_probe("TUI build failed. ERROR: Could not resolve \"yoga-layout\"");

    assert!(!result.ok);
    assert!(result.detail.contains("yoga-layout"));
}

#[test]
fn hermes_tui_probe_reports_react_runtime_failure() {
    let result = classify_hermes_tui_probe(
        "ERROR Cannot read properties of null (reading 'useState') ReactSharedInternals.H.useState",
    );

    assert!(!result.ok);
    assert!(result.detail.contains("React/useState"));
}

#[test]
fn hermes_tui_probe_reports_named_session_failure() {
    let result = classify_hermes_tui_probe("No session found matching 'avu-tui'.");

    assert!(!result.ok);
    assert!(result.detail.contains("hermes --continue --tui"));
}

#[test]
fn hermes_tui_probe_passes_empty_timeout_output() {
    let result = classify_hermes_tui_probe("");

    assert!(result.ok);
    assert!(result.detail.contains("no startup error"));
}

#[test]
fn source_detection_ignores_monitor_only_sources() {
    assert!(!non_monitor_source_seen("52\talsa_output.pci.monitor\tPipeWire\ts16le"));
    assert!(non_monitor_source_seen(
        "53\talsa_input.pci-0000_00_05.0.analog-stereo\tPipeWire\ts16le"
    ));
}

#[test]
fn source_detail_prefers_real_input_over_monitor() {
    let detail = audio_source_detail(
        Some(
            "52\talsa_output.pci.monitor\tPipeWire\ts16le\n53\talsa_input.pci-0000_00_05.0.analog-stereo\tPipeWire\ts16le",
        ),
        None,
    );

    assert!(detail.contains("alsa_input"));
    assert!(!detail.contains("alsa_output.pci.monitor"));
}

#[test]
fn probe_launch_failures_quote_the_first_output_line() {
    let result = classify_hermes_tui_probe("\n  bash: hermes: command not found \nmore");
    assert!(!result.ok);
    assert_eq!(result.detail, "Hermes TUI launch failed: bash: hermes: command not found");

    let fine = classify_hermes_tui_probe("starting Hermes TUI\n");
    assert!(fine.ok);
    assert_eq!(
        fine.detail,
        "Hermes TUI launch probe did not report known startup errors: starting Hermes TUI"
    );
}

#[test]
fn compact_probe_detail_cuts_long_samples() {
    assert_eq!(compact_probe_detail("x", None), "x: no details reported");
    let long = "a".repeat(200);
    let detail = compact_probe_detail("x", Some(long.as_str()));
    assert_eq!(detail.chars().count(), 3 + 180);
    assert!(detail.ends_with('…'));
    assert_eq!(first_non_monitor_source_line("  \n 7\tmic \n"), Some("7\tmic".to_string()));
}

fn status(available: bool, notes: Vec<String>) -> VoiceActivationStatus {
    VoiceActivationStatus {
        wake_mode: "keyboard_only".to_string(),
        wake_phrase: "hey avu".to_string(),
        keyboard_activation_available: true,
        backend_voice_available: available,
        record_key: Some("ctrl+b".to_string()),
        stt_provider: None,
        tts_provider: Some("edge".to_string()),
        notes,
    }
}

#[test]
fn voice_config_detail_lists_providers_and_notes() {
    let s = status(true, vec!["one".to_string(), "two".to_string()]);
    assert_eq!(
        voice_config_detail(&s),
        "wake_mode=keyboard_only wake_phrase=`hey avu` STT=unreported TTS=edge record_key=ctrl+b; one; two"
    );
}

#[test]
fn doctor_checks_follow_the_probe_results() {
    assert!(!native_microphone_check().ok);
    assert_eq!(
        audio_player_names(),
        vec!["ffplay", "mpv", "paplay", "aplay", "xdg-open"]
    );
    let none = audio_player_check(&Vec::new());
    assert!(!none.ok);
    let some = audio_player_check(&vec!["mpv".to_string(), "aplay".to_string()]);
    assert!(some.ok);
    assert_eq!(some.detail, "available players: mpv, aplay");

    let skipped = audio_sink_check(false, None, None);
    assert!(skipped.ok);
    assert_eq!(skipped.detail, "non-Linux platform; sink probing skipped");
    let sink = audio_sink_check(true, Some("1\tsink\n"), None);
    assert!(sink.ok);
    assert_eq!(sink.detail, "audio sink detected: 1\tsink");
    let no_sink = audio_sink_check(true, Some("\n"), Some("Audio\n └─ Sources:\n"));
    assert!(!no_sink.ok);
    let wp_sink = audio_sink_check(true, None, Some("Audio\n  Sinks:\n"));
    assert!(wp_sink.ok);

    let source = audio_source_check(true, Some("1\tout.monitor\n"), Some(" Sources:\n"));
    assert!(source.ok);
    let no_source = audio_source_check(true, Some("1\tout.monitor\n"), None);
    assert!(!no_source.ok);
    assert_eq!(
        no_source.detail,
        "no microphone/source detected; Hermes STT cannot record user speech"
    );

    assert!(tui_probe_wanted("hermes", true, true));
    assert!(!tui_probe_wanted("openclaw", true, true));
    let skipped = hermes_tui_handoff_check("fake", true, true, None);
    assert!(skipped.ok);
    let unreachable = hermes_tui_handoff_check("hermes", false, true, None);
    assert!(!unreachable.ok);
    let not_run = hermes_tui_handoff_check("hermes", true, true, None);
    assert!(!not_run.ok);
    assert!(not_run.detail.contains("timeout 6 hermes --continue --tui"));
    let passed = hermes_tui_voice_command_check("hermes", true, true, Some(""));
    assert!(passed.ok);
    assert_eq!(
        passed.detail,
        "Hermes `/voice on` pseudo-terminal probe did not report known startup/build errors"
    );
    let failed = hermes_tui_voice_command_check("hermes", true, true, Some("No session found"));
    assert!(!failed.ok);
    assert!(failed.detail.contains("could not resume a session"));
}

#[test]
fn doctor_report_is_ok_only_when_every_check_passes() {
    let capability = CapabilitySnapshot::fake();
    let base = base_checks("/home/u/.avu", "fake", &capability);
    assert_eq!(base.len(), 5);
    assert_eq!(base[1].detail, "fake reachable=true");
    assert!(base.iter().all(|c| c.ok));

    let report = doctor_report("/home/u/.avu", "fake", capability.clone(), Vec::new());
    assert!(report.ok);
    let report = doctor_report("/home/u/.avu", "fake", capability, vec![native_microphone_check()]);
    assert!(!report.ok);
    assert_eq!(report.checks.len(), 6);

    let missing = CapabilitySnapshot::missing("hermes");
    let base = base_checks("h", "missing", &missing);
    assert!(!base[1].ok);
    assert_eq!(base[3].detail, "backend unreachable; approval controls disabled safely");
}
