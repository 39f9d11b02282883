use avu::config::{avu_file_names, avu_home, AvuConfig, AvuHome};
use avu::domain::{CapabilitySnapshot, CockpitMode};
use avu::hud::{core_glyph, hud_dimensions, hud_frame, write_center};
use avu::install::{
    backend_commands, detect_install_method, install_report, path_entries, path_has_dir, path_with_dir,
    shell_setup_lines, BackendDetect, InstallMethod,
};
use avu::setup::{setup_next_hint, setup_steps};

#[test]
fn hud_contains_mode_and_radar_language() {
    let (w, h) = hud_dimensions(42, 15);
    assert_eq!((w, h), (42, 15));
    assert_eq!(hud_dimensions(3, 4), (24, 11));
    let mut grid = vec![vec![' '; w]; h];
    grid[h / 2 - 1][w / 2] = core_glyph(CockpitMode::ApprovalNeeded);
    let frame = hud_frame(grid, CockpitMode::ApprovalNeeded);
    let output = frame.lines.join("\n");
    assert!(output.contains("APPROVAL"));
    assert!(output.contains("EVENT RADAR"));
    assert!(output.contains('◆'));
    assert_eq!(frame.lines.len(), 15);
    assert!(frame.lines.iter().all(|l| l.chars().count() == 42));
}

#[test]
fn write_center_cuts_text_at_the_row_end() {
    let mut grid = vec![vec!['.'; 5], vec![]];
    write_center(&mut grid, 0, "abcdefg");
    assert_eq!(grid[0].iter().collect::<String>(), "abcde");
    write_center(&mut grid, 1, "x");
    assert!(grid[1].is_empty());
    write_center(&mut grid, 7, "x");
    let mut grid = vec![vec!['.'; 7]];
    write_center(&mut grid, 0, "ab");
    assert_eq!(grid[0].iter().collect::<String>(), "..ab...");
    assert_eq!(core_glyph(CockpitMode::Error), '×');
    assert_eq!(core_glyph(CockpitMode::Speaking), '◍');
    assert_eq!(core_glyph(CockpitMode::Idle), '◉');
}

#[test]
fn install_method_follows_the_binary_path() {
    assert_eq!(
        detect_install_method("/home/u/avu/target/release/avu", false, true),
        InstallMethod::Source
    );
    assert_eq!(detect_install_method("/home/u/.cargo/bin/avu", false, true), InstallMethod::Cargo);
    assert_eq!(detect_install_method("/usr/bin/avu", true, false), InstallMethod::PackageManager);
    assert_eq!(detect_install_method("/home/u/.local/bin/avu", false, true), InstallMethod::Script);
    assert_eq!(detect_install_method("/opt/avu", false, false), InstallMethod::Unknown);
    assert_eq!(InstallMethod::PackageManager.name(), "packagemanager");
}

#[test]
fn install_report_lists_found_backends_and_needs_binary_path_and_home() {
    let backends = vec![
        BackendDetect { name: "hermes".to_string(), found: true, path: Some("/usr/bin/hermes".to_string()) },
        BackendDetect { name: "openclaw".to_string(), found: false, path: None },
    ];
    let report = install_report(
        "linux-gnu", "x86_64", "/usr/bin/avu", true, true, "/home/u/.avu", true, backends,
        InstallMethod::PackageManager,
    );
    assert!(report.ok);
    assert_eq!(report.checks.len(), 5);
    assert_eq!(report.checks[3].detail, "found: hermes");
    assert_eq!(report.checks[4].detail, "packagemanager");
    let report = install_report(
        "linux-gnu", "x86_64", "/tmp/avu", true, false, "/home/u/.avu", true, Vec::new(),
        InstallMethod::Unknown,
    );
    assert!(!report.ok);
    assert!(report.checks[1].detail.contains("NOT on PATH"));
    assert!(report.checks[3].detail.starts_with("no agent backend found"));
    assert_eq!(backend_commands(), vec!["hermes", "openclaw"]);
}

#[test]
fn path_helpers_split_and_extend_path_lists() {
    assert_eq!(path_entries("/a::/b", ':'), vec!["/a", "", "/b"]);
    assert_eq!(path_entries("", ':'), vec![""]);
    assert!(path_has_dir("/usr/bin:/home/u/.local/bin", ':', "/home/u/.local/bin"));
    assert!(!path_has_dir("/usr/bin:/home/u/.local/binx", ':', "/home/u/.local/bin"));
    assert_eq!(path_with_dir("/x", ':', "/usr/bin"), "/x:/usr/bin");
    assert_eq!(
        shell_setup_lines("zsh", "/x"),
        vec!["  echo 'export PATH=\"/x:$PATH\"' >> ~/.zshrc", "  source ~/.zshrc"]
    );
    assert_eq!(shell_setup_lines("fish", "/x"), vec!["  fish_add_path /x"]);
    assert_eq!(shell_setup_lines("sh", "/x")[1], "  source ~/.bashrc");
}

#[test]
fn setup_steps_follow_the_capability() {
    let steps = setup_steps("fake", &CapabilitySnapshot::fake());
    assert_eq!(steps.len(), 7);
    assert!(steps.iter().all(|s| s.ok));
    assert_eq!(steps[1].detail, "selected backend adapter: fake");
    let missing = setup_steps("missing", &CapabilitySnapshot::missing("backend"));
    assert!(!missing[2].ok);
    assert!(!missing[6].ok);
    assert_eq!(missing[4].number, 5);
    assert_eq!(
        setup_next_hint("fake"),
        "Next: run `avu doctor --backend fake` and `avu tui --backend fake --once`."
    );
}

#[test]
fn avu_home_prefers_explicit_setting() {
    assert!(matches!(avu_home(Some("/x"), Some("/home/u")), AvuHome::Explicit(ref h) if h == "/x"));
    assert!(matches!(avu_home(None, Some("/home/u")), AvuHome::UnderUserHome(ref h) if h == "/home/u"));
    assert!(matches!(avu_home(None, None), AvuHome::Local));
    assert_eq!(avu_file_names(), vec!["config.toml", "auth.json", "capabilities.json", "logs", "fixtures"]);
    let config = AvuConfig::default();
    assert_eq!(config.wake_phrase, "hey avu");
    assert_eq!(config.backend, "auto");
}
