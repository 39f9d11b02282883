//! The command-line surface: subcommands and their options, as plain values.

use vstd::prelude::*;

verus! {

/// Which backend Avu talks to.
#[derive(Debug, Clone, Copy, PartialEq, Eq, Structural)]
pub enum BackendChoice {
    Auto,
    Fake,
    Hermes,
    Openclaw,
    Remote,
}

impl Default for BackendChoice {
    fn default() -> (r: Self)
        ensures
            r == BackendChoice::Auto,
    {
        BackendChoice::Auto
    }
}

#[derive(Debug, Clone)]
pub struct Cli {
    pub command: Option<Command>,
}

#[derive(Debug, Clone)]
pub enum Command {
    /// Run the guided terminal setup checks.
    Setup(SetupArgs),
    /// Diagnose backend, capability, config, and wake readiness.
    Doctor(DoctorArgs),
    /// Print backend and cockpit status.
    Status(StatusArgs),
    /// Print Avu config paths and effective defaults.
    Config(ConfigArgs),
    /// Render the Avu cockpit from a live adapter or fixture.
    Tui(TuiArgs),
    /// Show installation state, check PATH, or repair self-install.
    Install(InstallArgs),
}

#[derive(Debug, Clone)]
pub struct SetupArgs {
    pub quick: bool,
    pub backend: BackendChoice,
    pub non_interactive: bool,
}

#[derive(Debug, Clone)]
pub struct DoctorArgs {
    pub backend: BackendChoice,
    pub json: bool,
}

#[derive(Debug, Clone)]
pub struct StatusArgs {
    pub backend: BackendChoice,
    pub json: bool,
    pub fixture: Option<String>,
}

#[derive(Debug, Clone)]
pub struct ConfigArgs {
    pub json: bool,
}

#[derive(Debug, Clone)]
pub struct TuiArgs {
    pub fixture: Option<String>,
    pub once: bool,
    pub backend: BackendChoice,
}

#[derive(Debug, Clone)]
pub struct InstallArgs {
    pub check: bool,
    pub fix_self: bool,
    pub info: bool,
}

impl Default for TuiArgs {
    /// No fixture, interactive, backend auto-detected.
    fn default() -> (r: Self)
        ensures
            r.fixture is None,
            !r.once,
            r.backend == BackendChoice::Auto,
    {
        TuiArgs { fixture: None, once: false, backend: BackendChoice::Auto }
    }
}

/// The subcommand to run: the cockpit when none is given.
pub fn command_or_default(cli: Cli) -> (r: Command)
    ensures
        cli.command is None ==> (r matches Command::Tui(a) && a.fixture is None && !a.once
            && a.backend == BackendChoice::Auto),
        cli.command is Some ==> r == cli.command->0,
{
    match cli.command {
        Some(c) => c,
        None => Command::Tui(TuiArgs::default()),
    }
}

} // verus!
