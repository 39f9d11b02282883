//! Avu's own settings and where they live.

use vstd::prelude::*;
use crate::gateway::ostr_ref;
use crate::text::string_from_str;

verus! {

/// Where Avu keeps its files.
#[derive(Debug, Clone)]
pub struct AvuPaths {
    pub home: String,
    pub config: String,
    pub auth: String,
    pub capabilities: String,
    pub logs: String,
    pub fixtures: String,
}

/// Where Avu's home directory is: named by `AVU_HOME`, `.avu` under the
/// user's home, or `.avu` in the working directory.
#[derive(Debug, Clone)]
pub enum AvuHome {
    Explicit(String),
    UnderUserHome(String),
    Local,
}

/// The view of a home choice.
pub open spec fn avu_home_view(h: AvuHome) -> (int, Seq<char>) {
    match h {
        AvuHome::Explicit(s) => (0, s@),
        AvuHome::UnderUserHome(s) => (1, s@),
        AvuHome::Local => (2, Seq::empty()),
    }
}

/// Which home directory Avu uses, from the `AVU_HOME` and `HOME` variables:
/// `AVU_HOME` wins, then `.avu` under `HOME`, then `.avu` here.
pub fn avu_home(avu_home_var: Option<&str>, user_home_var: Option<&str>) -> (r: AvuHome)
    ensures
        avu_home_view(r) == match ostr_ref(avu_home_var) {
            Some(h) => (0int, h),
            None => match ostr_ref(user_home_var) {
                Some(u) => (1int, u),
                None => (2int, Seq::<char>::empty()),
            },
        },
{
    match avu_home_var {
        Some(h) => AvuHome::Explicit(string_from_str(h)),
        None => match user_home_var {
            Some(u) => AvuHome::UnderUserHome(string_from_str(u)),
            None => AvuHome::Local,
        },
    }
}

/// The names of Avu's files under its home, in the order of `AvuPaths`:
/// config, auth, capabilities, logs, fixtures.
pub fn avu_file_names() -> (r: Vec<&'static str>)
    ensures
        r@.len() == 5,
        r@[0]@ == "config.toml"@,
        r@[1]@ == "auth.json"@,
        r@[2]@ == "capabilities.json"@,
        r@[3]@ == "logs"@,
        r@[4]@ == "fixtures"@,
{
    let mut r: Vec<&'static str> = Vec::new();
    r.push("config.toml");
    r.push("auth.json");
    r.push("capabilities.json");
    r.push("logs");
    r.push("fixtures");
    r
}

#[derive(Debug, Clone)]
pub struct AvuConfig {
    pub backend: String,
    pub permission_posture: String,
    pub wake_mode: String,
    pub wake_phrase: String,
}

impl Default for AvuConfig {
    /// Auto-detected backend, notify-only posture, keyboard wake, "hey avu".
    fn default() -> (r: Self)
        ensures
            r.backend@ == "auto"@,
            r.permission_posture@ == "observe_notify"@,
            r.wake_mode@ == "keyboard_only"@,
            r.wake_phrase@ == "hey avu"@,
    {
        AvuConfig {
            backend: string_from_str("auto"),
            permission_posture: string_from_str("observe_notify"),
            wake_mode: string_from_str("keyboard_only"),
            wake_phrase: string_from_str("hey avu"),
        }
    }
}

} // verus!
