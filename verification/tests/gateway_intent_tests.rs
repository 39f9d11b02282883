use avu::domain::{ApprovalRequest, BackendKind, Severity};
use avu::gateway::{resolve_hermes_gateway, GatewayStatus};
use avu::intent::{approval_gate, parse_intent, parse_intent_with_wake_phrase, try_parse_intent, ApprovalGate, Intent};

#[test]
fn default_running_selects_configured_default() {
    let resolution = resolve_hermes_gateway(
        Some("default"),
        Some("✓ User gateway service is running\nOther profiles:\n  ✓ portal — PID 123"),
    );

    assert_eq!(resolution.status, GatewayStatus::DefaultRunning);
    assert_eq!(resolution.selected_profile.as_deref(), Some("default"));
}

#[test]
fn other_running_profile_does_not_replace_default() {
    let status = r#"
✗ User gateway service is stopped
Other profiles:
  ✓ portal           — PID 115002
"#;

    let resolution = resolve_hermes_gateway(Some("default"), Some(status));

    assert_eq!(resolution.status, GatewayStatus::OtherProfileRunning);
    assert_eq!(resolution.running_profile.as_deref(), Some("portal"));
    assert_eq!(resolution.selected_profile.as_deref(), Some("default"));
    assert!(resolution.notes.iter().any(|note| note.contains("will not silently switch")));
}

#[test]
fn token_conflict_reports_running_profile_only_for_diagnostics() {
    let status = r#"
Active: inactive (dead)
✗ User gateway service is stopped
Recent gateway health:
  ⚠ telegram: Telegram bot token already in use (PID 741). Stop the other gateway first.
Other profiles:
  ✓ portal           — PID 741
"#;

    let resolution = resolve_hermes_gateway(Some("default"), Some(status));

    assert_eq!(resolution.status, GatewayStatus::Conflict);
    assert_eq!(resolution.running_profile.as_deref(), Some("portal"));
    assert_eq!(resolution.selected_profile.as_deref(), Some("default"));
    assert!(resolution.notes.iter().any(|note| note.contains("will not silently select")));
}

#[test]
fn gateway_without_status_keeps_default_profile() {
    let resolution = resolve_hermes_gateway(Some("default"), None);
    assert_eq!(resolution.selected_profile.as_deref(), Some("default"));
    assert_eq!(resolution.running_profile, None);
}

#[test]
fn parses_wake_prefixed_commands() {
    assert_eq!(parse_intent("Hey Avu, interrupt"), Intent::Interrupt);
    assert_eq!(parse_intent("avu confirm approve"), Intent::ConfirmApprove);
}

#[test]
fn parses_configured_wake_phrase_commands() {
    assert_eq!(parse_intent_with_wake_phrase("Computer, status", "computer"), Intent::Status);
    assert_eq!(
        parse_intent_with_wake_phrase("Computerized status", "computer"),
        Intent::Unknown("computerized status".to_string())
    );
}

#[test]
fn destructive_approval_requires_confirmation() {
    let approval = ApprovalRequest {
        id: "a1".to_string(),
        backend: BackendKind::Hermes,
        summary: "run destructive command".to_string(),
        command: Some("rm -rf build-cache".to_string()),
        severity: Severity::Destructive,
        requires_second_confirmation: true,
    };
    assert_eq!(
        approval_gate(&Intent::Approve, Some(&approval), false),
        ApprovalGate::RequireSecondConfirmation { summary: "run destructive command".to_string() }
    );
    assert_eq!(
        approval_gate(&Intent::ConfirmApprove, Some(&approval), true),
        ApprovalGate::RouteApprove { approval_id: "a1".to_string() }
    );
}

#[test]
fn intents_cover_sessions_and_switching() {
    assert_eq!(parse_intent("hey avu, list sessions"), Intent::ListSessions);
    assert_eq!(parse_intent("avu switch to session 3"), Intent::SwitchSession(3));
    assert_eq!(parse_intent("avu switch to session x"), Intent::SwitchSession(1));
    assert_eq!(try_parse_intent("status"), Some(Intent::Status));
    assert_eq!(approval_gate(&Intent::Reject, None, false), ApprovalGate::NoPendingApproval);
}
