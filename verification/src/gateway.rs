//! Which Hermes gateway profile is running, and which one Avu follows.
//!
//! Avu never silently switches away from the configured default profile:
//! another running profile is only ever reported.

use vstd::prelude::*;
use crate::domain::strs;
use crate::text::{
    chars_of, concat3, contains_str, eq_chars, eq_str, first_word, first_word_chars, has_sub,
    lines, lines_of, lower_str, lowercase, string_from_str, string_of, trim, trim_chars, views,
};

verus! {

#[derive(Debug, Clone)]
pub struct GatewayResolution {
    pub default_profile: Option<String>,
    pub running_profile: Option<String>,
    pub selected_profile: Option<String>,
    pub status: GatewayStatus,
    pub notes: Vec<String>,
}

#[derive(Debug, Clone, Copy, PartialEq, Eq, Structural)]
pub enum GatewayStatus {
    DefaultRunning,
    DefaultStopped,
    OtherProfileRunning,
    Conflict,
    Unknown,
}

/// The view of an optional string.
pub open spec fn ostr(o: Option<String>) -> Option<Seq<char>> {
    match o {
        Some(s) => Some(s@),
        None => None,
    }
}

/// The view of an optional string slice.
pub open spec fn ostr_ref(o: Option<&str>) -> Option<Seq<char>> {
    match o {
        Some(s) => Some(s@),
        None => None,
    }
}

/// The profile named by one line of `hermes gateway status`: a line that
/// starts with `✓`, whose first word is not `User` or `Systemd`.
pub open spec fn line_profile(line: Seq<char>) -> Option<Seq<char>> {
    let t = trim(line);
    if t.len() > 0 && t[0] == '✓' {
        match first_word(trim(t.skip(1))) {
            Some(w) => {
                let p = trim(w);
                if p == "User"@ || p == "Systemd"@ || p.len() == 0 {
                    None
                } else {
                    Some(p)
                }
            },
            None => None,
        }
    } else {
        None
    }
}

/// The first profile named by the lines from `k` on.
pub open spec fn first_profile_from(ls: Seq<Seq<char>>, k: int) -> Option<Seq<char>>
    decreases ls.len() - k,
{
    if k < 0 || k >= ls.len() {
        None
    } else {
        match line_profile(ls[k]) {
            Some(p) => Some(p),
            None => first_profile_from(ls, k + 1),
        }
    }
}

/// The running profile that a gateway status text reports, if any.
pub open spec fn running_profile_spec(text: Seq<char>) -> Option<Seq<char>> {
    first_profile_from(lines_of(text), 0)
}

fn line_profile_exec(line: &Vec<char>) -> (r: Option<Vec<char>>)
    ensures
        r matches Some(p) ==> line_profile(line@) == Some(p@),
        r is None ==> line_profile(line@) is None,
{
    let t = trim_chars(line);
    if t.len() > 0 && t[0] == '✓' {
        let rest = crate::text::slice_chars(&t, 1, t.len());
        assert(rest@ =~= t@.skip(1));
        let rest = trim_chars(&rest);
        match first_word_chars(&rest) {
            Some(w) => {
                let p = trim_chars(&w);
                if eq_str(&p, "User") || eq_str(&p, "Systemd") || p.len() == 0 {
                    None
                } else {
                    Some(p)
                }
            },
            None => None,
        }
    } else {
        None
    }
}

/// The running profile named in a `hermes gateway status` text.
pub fn running_gateway_profile(gateway_text: &str) -> (r: Option<String>)
    ensures
        ostr(r) == running_profile_spec(gateway_text@),
{
    let text = chars_of(gateway_text);
    let ls = lines(&text);
    let mut k: usize = 0;
    while k < ls.len()
        invariant
            k <= ls.len(),
            text@ == gateway_text@,
            views(ls@) == lines_of(text@),
            first_profile_from(views(ls@), k as int) == first_profile_from(views(ls@), 0),
        decreases ls.len() - k,
    {
        assert(views(ls@)[k as int] == ls@[k as int]@);
        match line_profile_exec(&ls[k]) {
            Some(p) => {
                assert(first_profile_from(views(ls@), k as int) == Some(p@));
                assert(running_profile_spec(gateway_text@) == Some(p@));
                let out = string_of(&p);
                assert(ostr(Some(out)) == Some(p@));
                return Some(out);
            },
            None => {},
        }
        k += 1;
    }
    None
}

/// The gateway state that a status text shows for the default profile.
pub open spec fn gateway_status_spec(
    default_profile: Option<Seq<char>>,
    running: Option<Seq<char>>,
    lower: Seq<char>,
) -> GatewayStatus {
    let conflict = has_sub(lower, "token already in use"@) || has_sub(lower, "already in use"@);
    let default_running = has_sub(lower, "user gateway service is running"@) || (
    default_profile is Some && running == default_profile);
    let default_stopped = has_sub(lower, "user gateway service is stopped"@) || has_sub(
        lower,
        "active: inactive (dead)"@,
    );
    if conflict {
        GatewayStatus::Conflict
    } else if default_running {
        GatewayStatus::DefaultRunning
    } else if running is Some && default_stopped {
        GatewayStatus::OtherProfileRunning
    } else if default_stopped {
        GatewayStatus::DefaultStopped
    } else {
        GatewayStatus::Unknown
    }
}

/// The notes that explain a gateway status.
pub open spec fn gateway_notes_spec(status: GatewayStatus, running: Option<Seq<char>>) -> Seq<
    Seq<char>,
> {
    match status {
        GatewayStatus::DefaultRunning => seq!["Hermes default gateway is running"@],
        GatewayStatus::DefaultStopped => seq![
            "Hermes default gateway is stopped; Avu will not silently switch profiles"@,
        ],
        GatewayStatus::OtherProfileRunning => match running {
            Some(p) => seq![
                "Hermes profile `"@ + p
                    + "` is running, but Avu will not silently switch away from the configured/default profile"@,
            ],
            None => Seq::empty(),
        },
        GatewayStatus::Conflict => seq![
            "Hermes gateway conflict detected; resolve token/process ownership before relying on gateway delivery"@,
        ] + match running {
            Some(p) => seq![
                "Running profile `"@ + p
                    + "` is reported for diagnostics only; Avu will not silently select it"@,
            ],
            None => Seq::<Seq<char>>::empty(),
        },
        GatewayStatus::Unknown => seq![
            "Hermes gateway status is unavailable or unrecognized; run `hermes gateway status --all`"@,
        ],
    }
}

/// The configured default profile, trimmed, when not blank.
pub open spec fn default_profile_spec(d: Option<Seq<char>>) -> Option<Seq<char>> {
    match d {
        Some(p) => if trim(p).len() > 0 {
            Some(trim(p))
        } else {
            None
        },
        None => None,
    }
}

/// The running profile reported by the status text, if there is one.
pub open spec fn running_of(status: Option<Seq<char>>) -> Option<Seq<char>> {
    match status {
        Some(t) => running_profile_spec(t),
        None => None,
    }
}

/// Lowercased status text; an absent text counts as empty.
pub open spec fn lower_status(status: Option<Seq<char>>) -> Seq<char> {
    lowercase(
        match status {
            Some(t) => t,
            None => Seq::empty(),
        },
    )
}

fn opt_string_eq(a: &Option<String>, b: &Option<String>) -> (r: bool)
    ensures
        r == (ostr(*a) == ostr(*b)),
{
    match (a, b) {
        (Some(x), Some(y)) => {
            let xc = chars_of(x.as_str());
            let yc = chars_of(y.as_str());
            eq_chars(&xc, &yc)
        },
        (None, None) => true,
        _ => false,
    }
}

fn clone_opt(o: &Option<String>) -> (r: Option<String>)
    ensures
        ostr(r) == ostr(*o),
{
    match o {
        Some(s) => Some(s.clone()),
        None => None,
    }
}

/// How Hermes' gateway stands for the configured default profile.
///
/// The selected profile is always the configured default: a different running
/// profile is reported in the notes and never selected.
pub fn resolve_hermes_gateway(default_profile: Option<&str>, gateway_status: Option<&str>) -> (r:
    GatewayResolution)
    ensures
        ostr(r.default_profile) == default_profile_spec(ostr_ref(default_profile)),
        ostr(r.running_profile) == running_of(ostr_ref(gateway_status)),
        ostr(r.selected_profile) == default_profile_spec(ostr_ref(default_profile)),
        r.status == gateway_status_spec(
            default_profile_spec(ostr_ref(default_profile)),
            running_of(ostr_ref(gateway_status)),
            lower_status(ostr_ref(gateway_status)),
        ),
        strs(r.notes@) == gateway_notes_spec(r.status, running_of(ostr_ref(gateway_status))),
{
    let default_profile: Option<String> = match default_profile {
        Some(p) => {
            let pc = chars_of(p);
            let t = trim_chars(&pc);
            if t.len() > 0 {
                Some(string_of(&t))
            } else {
                None
            }
        },
        None => None,
    };
    let running_profile: Option<String> = match gateway_status {
        Some(t) => running_gateway_profile(t),
        None => None,
    };
    let text: &str = match gateway_status {
        Some(t) => t,
        None => "",
    };
    let lower = lower_str(text);
    proof {
        let e: &str = "";
        assert(e@ =~= Seq::<char>::empty()) by {
            reveal_strlit("");
        }
    }
    let conflict = contains_str(&lower, "token already in use") || contains_str(
        &lower,
        "already in use",
    );
    let default_running = contains_str(&lower, "user gateway service is running") || (
    default_profile.is_some() && opt_string_eq(&running_profile, &default_profile));
    let default_stopped = contains_str(&lower, "user gateway service is stopped") || contains_str(
        &lower,
        "active: inactive (dead)",
    );
    let status = if conflict {
        GatewayStatus::Conflict
    } else if default_running {
        GatewayStatus::DefaultRunning
    } else if running_profile.is_some() && default_stopped {
        GatewayStatus::OtherProfileRunning
    } else if default_stopped {
        GatewayStatus::DefaultStopped
    } else {
        GatewayStatus::Unknown
    };
    let selected_profile = clone_opt(&default_profile);
    let mut notes: Vec<String> = Vec::new();
    match status {
        GatewayStatus::DefaultRunning => {
            notes.push(string_from_str("Hermes default gateway is running"));
        },
        GatewayStatus::DefaultStopped => {
            notes.push(
                string_from_str(
                    "Hermes default gateway is stopped; Avu will not silently switch profiles",
                ),
            );
        },
        GatewayStatus::OtherProfileRunning => {
            if let Some(profile) = &running_profile {
                notes.push(
                    concat3(
                        "Hermes profile `",
                        profile.as_str(),
                        "` is running, but Avu will not silently switch away from the configured/default profile",
                    ),
                );
            }
        },
        GatewayStatus::Conflict => {
            notes.push(
                string_from_str(
                    "Hermes gateway conflict detected; resolve token/process ownership before relying on gateway delivery",
                ),
            );
            if let Some(profile) = &running_profile {
                notes.push(
                    concat3(
                        "Running profile `",
                        profile.as_str(),
                        "` is reported for diagnostics only; Avu will not silently select it",
                    ),
                );
            }
        },
        GatewayStatus::Unknown => {
            notes.push(
                string_from_str(
                    "Hermes gateway status is unavailable or unrecognized; run `hermes gateway status --all`",
                ),
            );
        },
    }
    let r = GatewayResolution {
        default_profile,
        running_profile,
        selected_profile,
        status,
        notes,
    };
    assert(strs(r.notes@) =~= gateway_notes_spec(r.status, running_of(ostr_ref(gateway_status))));
    r
}

/// Avu follows the configured default profile whatever the gateway reports:
/// the selected profile is the default one, and a different running profile
/// is never selected.
pub proof fn law_gateway_never_switches_profile(
    default_profile: Option<Seq<char>>,
    status: Option<Seq<char>>,
    selected: Option<Seq<char>>,
)
    requires
        selected == default_profile_spec(default_profile),
    ensures
        running_of(status) is Some && running_of(status) != default_profile_spec(default_profile)
            ==> selected != running_of(status),
{
}

} // verus!
