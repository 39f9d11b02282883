//! The installation report behind `avu install`: how Avu was installed, which
//! backends are on PATH, the checks, and the advice for putting Avu on PATH.
use vstd::prelude::*;
use crate::text::{
    chars_of, concat2, concat3, contains_str, eq_chars, has_sub, join, join_strings, push_char,
    push_str, string_from_str, string_of, string_views,
};

verus! {

/// How the running Avu binary was installed.
#[derive(Debug, Clone, Copy, PartialEq, Eq, Structural)]
pub enum InstallMethod {
    Script,
    PackageManager,
    Cargo,
    Source,
    Unknown,
}

/// The install method in lower case, as the report's detail gives it.
pub open spec fn method_name(m: InstallMethod) -> Seq<char> {
    match m {
        InstallMethod::Script => "script"@,
        InstallMethod::PackageManager => "packagemanager"@,
        InstallMethod::Cargo => "cargo"@,
        InstallMethod::Source => "source"@,
        InstallMethod::Unknown => "unknown"@,
    }
}

impl InstallMethod {
    /// The method in lower case.
    pub fn name(&self) -> (r: &'static str)
        ensures
            r@ == method_name(*self),
    {
        match self {
            InstallMethod::Script => "script",
            InstallMethod::PackageManager => "packagemanager",
            InstallMethod::Cargo => "cargo",
            InstallMethod::Source => "source",
            InstallMethod::Unknown => "unknown",
        }
    }
}

/// Where a binary's path says it came from: a build tree, cargo, a system
/// package, a user's home (a script install), or nothing known. The
/// prefix tests are on the path's components: under `/usr/` or
/// `C:\Program`, and under the user's home, `/home/`, `/Users/` or
/// `C:\Users\`.
pub open spec fn install_method_spec(
    path_text: Seq<char>,
    under_system: bool,
    under_home: bool,
) -> InstallMethod {
    if has_sub(path_text, "target/debug"@) || has_sub(path_text, "target/release"@) {
        InstallMethod::Source
    } else if has_sub(path_text, ".cargo"@) {
        InstallMethod::Cargo
    } else if under_system {
        InstallMethod::PackageManager
    } else if under_home {
        InstallMethod::Script
    } else {
        InstallMethod::Unknown
    }
}

/// How the running binary was installed, from its path and whether the
/// path lies under a system prefix or a home directory.
pub fn detect_install_method(path_text: &str, under_system: bool, under_home: bool) -> (r:
    InstallMethod)
    ensures
        r == install_method_spec(path_text@, under_system, under_home),
{
    let pc = chars_of(path_text);
    if contains_str(&pc, "target/debug") || contains_str(&pc, "target/release") {
        InstallMethod::Source
    } else if contains_str(&pc, ".cargo") {
        InstallMethod::Cargo
    } else if under_system {
        InstallMethod::PackageManager
    } else if under_home {
        InstallMethod::Script
    } else {
        InstallMethod::Unknown
    }
}

/// A backend command looked up on PATH.
#[derive(Debug, Clone)]
pub struct BackendDetect {
    pub name: String,
    pub found: bool,
    pub path: Option<String>,
}

/// One line of the install report.
#[derive(Debug, Clone)]
pub struct InstallCheck {
    pub name: String,
    pub ok: bool,
    pub detail: String,
}

/// The whole install report.
#[derive(Debug, Clone)]
pub struct InstallReport {
    pub ok: bool,
    pub os: String,
    pub arch: String,
    pub avu_bin: String,
    pub avu_home: String,
    pub install_method: InstallMethod,
    pub path_ok: bool,
    pub backends: Vec<BackendDetect>,
    pub checks: Vec<InstallCheck>,
}

/// The backend commands that the install report looks for.
pub fn backend_commands() -> (r: Vec<String>)
    ensures
        string_views(r@) == seq!["hermes"@, "openclaw"@],
{
    let mut r: Vec<String> = Vec::new();
    r.push(string_from_str("hermes"));
    r.push(string_from_str("openclaw"));
    assert(string_views(r@) =~= seq!["hermes"@, "openclaw"@]);
    r
}

/// The names of the found backends, in order.
pub open spec fn found_names(bs: Seq<BackendDetect>) -> Seq<Seq<char>>
    decreases bs.len(),
{
    if bs.len() == 0 {
        Seq::empty()
    } else if bs.last().found {
        found_names(bs.drop_last()).push(bs.last().name@)
    } else {
        found_names(bs.drop_last())
    }
}

/// The view of a check: its name, whether it passed, and its detail.
pub open spec fn install_check_view(c: InstallCheck) -> (Seq<char>, bool, Seq<char>) {
    (c.name@, c.ok, c.detail@)
}

/// The views of a list of checks.
pub open spec fn install_checks_view(v: Seq<InstallCheck>) -> Seq<(Seq<char>, bool, Seq<char>)> {
    v.map_values(|c: InstallCheck| install_check_view(c))
}

/// The checks of the install report.
pub open spec fn install_checks_spec(
    avu_bin: Seq<char>,
    bin_exists: bool,
    path_ok: bool,
    avu_home: Seq<char>,
    home_exists: bool,
    backends: Seq<BackendDetect>,
    method: InstallMethod,
) -> Seq<(Seq<char>, bool, Seq<char>)> {
    seq![
        ("avu_binary_exists"@, bin_exists, avu_bin),
        ("avu_on_path"@, path_ok, if path_ok {
            "avu is callable from PATH"@
        } else {
            "avu is NOT on PATH; run 'avu install --fix-self' or add to PATH manually"@
        }),
        ("avu_home_exists"@, home_exists, avu_home),
        ("backend_detected"@, true, if found_names(backends).len() > 0 {
            "found: "@ + join(found_names(backends), ", "@)
        } else {
            "no agent backend found; install is still valid, but setup will need Hermes, OpenClaw, or a remote backend"@
        }),
        ("install_method"@, true, method_name(method)),
    ]
}

fn install_check(name: &str, ok: bool, detail: String) -> (r: InstallCheck)
    ensures
        install_check_view(r) == (name@, ok, detail@),
{
    InstallCheck { name: string_from_str(name), ok, detail }
}

fn found_backend_names(backends: &Vec<BackendDetect>) -> (r: Vec<String>)
    ensures
        string_views(r@) == found_names(backends@),
{
    let mut r: Vec<String> = Vec::new();
    let mut i: usize = 0;
    while i < backends.len()
        invariant
            i <= backends.len(),
            string_views(r@) == found_names(backends@.take(i as int)),
        decreases backends.len() - i,
    {
        let ghost before = r@;
        if backends[i].found {
            r.push(string_from_str(backends[i].name.as_str()));
            proof {
                assert(string_views(r@) =~= string_views(before).push(backends@[i as int].name@));
            }
        }
        proof {
            assert(backends@.take(i + 1).drop_last() =~= backends@.take(i as int));
        }
        i += 1;
    }
    proof {
        assert(backends@.take(backends.len() as int) =~= backends@);
    }
    r
}

/// The install report: its checks, and whether they all passed.
pub fn install_report(
    os: &str,
    arch: &str,
    avu_bin: &str,
    bin_exists: bool,
    path_ok: bool,
    avu_home: &str,
    home_exists: bool,
    backends: Vec<BackendDetect>,
    install_method: InstallMethod,
) -> (r: InstallReport)
    ensures
        install_checks_view(r.checks@) == install_checks_spec(
            avu_bin@,
            bin_exists,
            path_ok,
            avu_home@,
            home_exists,
            backends@,
            install_method,
        ),
        r.ok == (bin_exists && path_ok && home_exists),
        r.os@ == os@,
        r.arch@ == arch@,
        r.avu_bin@ == avu_bin@,
        r.avu_home@ == avu_home@,
        r.install_method == install_method,
        r.path_ok == path_ok,
        r.backends == backends,
{
    let mut checks: Vec<InstallCheck> = Vec::new();
    checks.push(install_check("avu_binary_exists", bin_exists, string_from_str(avu_bin)));
    let on_path = if path_ok {
        string_from_str("avu is callable from PATH")
    } else {
        string_from_str("avu is NOT on PATH; run 'avu install --fix-self' or add to PATH manually")
    };
    checks.push(install_check("avu_on_path", path_ok, on_path));
    checks.push(install_check("avu_home_exists", home_exists, string_from_str(avu_home)));
    let found = found_backend_names(&backends);
    let detected = if found.len() > 0 {
        let j = join_strings(&found, ", ");
        concat2("found: ", j.as_str())
    } else {
        string_from_str(
            "no agent backend found; install is still valid, but setup will need Hermes, OpenClaw, or a remote backend",
        )
    };
    checks.push(install_check("backend_detected", true, detected));
    checks.push(install_check("install_method", true, string_from_str(install_method.name())));
    assert(install_checks_view(checks@) =~= install_checks_spec(
        avu_bin@,
        bin_exists,
        path_ok,
        avu_home@,
        home_exists,
        backends@,
        install_method,
    ));
    let ok = bin_exists && path_ok && home_exists;
    InstallReport {
        ok,
        os: string_from_str(os),
        arch: string_from_str(arch),
        avu_bin: string_from_str(avu_bin),
        avu_home: string_from_str(avu_home),
        install_method,
        path_ok,
        backends,
        checks,
    }
}

/// The pieces of `s` between the separators from position `k` on, `cur`
/// being the piece begun before `k` (`str::split` with one character).
pub open spec fn split_from(s: Seq<char>, sep: char, k: int, cur: Seq<char>) -> Seq<Seq<char>>
    decreases s.len() - k,
{
    if k < 0 || k >= s.len() {
        seq![cur]
    } else if s[k] == sep {
        seq![cur] + split_from(s, sep, k + 1, Seq::empty())
    } else {
        split_from(s, sep, k + 1, cur.push(s[k]))
    }
}

/// The entries of a PATH-like list, split at every separator.
pub fn path_entries(path_var: &str, sep: char) -> (r: Vec<String>)
    ensures
        string_views(r@) == split_from(path_var@, sep, 0, Seq::empty()),
{
    let pc = chars_of(path_var);
    let mut out: Vec<String> = Vec::new();
    let mut cur: Vec<char> = Vec::new();
    let mut k: usize = 0;
    while k < pc.len()
        invariant
            k <= pc.len(),
            pc@ == path_var@,
            string_views(out@) + split_from(pc@, sep, k as int, cur@) == split_from(
                pc@,
                sep,
                0,
                Seq::empty(),
            ),
        decreases pc.len() - k,
    {
        if pc[k] == sep {
            let ghost before = string_views(out@);
            let piece = string_of(&cur);
            out.push(piece);
            proof {
                assert(string_views(out@) =~= before.push(cur@));
                assert(before + (seq![cur@] + split_from(pc@, sep, k + 1, Seq::empty())) =~= before.push(
                    cur@,
                ) + split_from(pc@, sep, k + 1, Seq::empty()));
            }
            cur = Vec::new();
        } else {
            cur.push(pc[k]);
        }
        k += 1;
    }
    let ghost before = string_views(out@);
    out.push(string_of(&cur));
    proof {
        assert(string_views(out@) =~= before.push(cur@));
        assert(before + seq![cur@] =~= before.push(cur@));
    }
    out
}

/// Whether `dir` is one of the entries of a PATH-like list.
pub fn path_has_dir(path_var: &str, sep: char, dir: &str) -> (r: bool)
    ensures
        r == split_from(path_var@, sep, 0, Seq::empty()).contains(dir@),
{
    let entries = path_entries(path_var, sep);
    let dc = chars_of(dir);
    let mut i: usize = 0;
    while i < entries.len()
        invariant
            i <= entries.len(),
            string_views(entries@) == split_from(path_var@, sep, 0, Seq::empty()),
            dc@ == dir@,
            forall|j: int| 0 <= j < i ==> string_views(entries@)[j] != dir@,
        decreases entries.len() - i,
    {
        let ec = chars_of(entries[i].as_str());
        if eq_chars(&ec, &dc) {
            assert(string_views(entries@)[i as int] == dir@);
            return true;
        }
        i += 1;
    }
    false
}

/// A PATH-like list with `dir` put in front.
pub fn path_with_dir(dir: &str, sep: char, path_var: &str) -> (r: String)
    ensures
        r@ == dir@ + seq![sep] + path_var@,
{
    let mut r = string_from_str(dir);
    push_char(&mut r, sep);
    push_str(&mut r, path_var);
    r
}

/// What to run to put `dir` on PATH for good, for the user's shell.
pub open spec fn shell_setup_spec(shell_name: Seq<char>, dir: Seq<char>) -> Seq<Seq<char>> {
    if shell_name == "zsh"@ {
        seq![
            "  echo 'export PATH=\""@ + dir + ":$PATH\"' >> ~/.zshrc"@,
            "  source ~/.zshrc"@,
        ]
    } else if shell_name == "fish"@ {
        seq!["  fish_add_path "@ + dir]
    } else {
        seq![
            "  echo 'export PATH=\""@ + dir + ":$PATH\"' >> ~/.bashrc"@,
            "  source ~/.bashrc"@,
        ]
    }
}

/// What to run to put `dir` on PATH for good, for the user's shell.
pub fn shell_setup_lines(shell_name: &str, dir: &str) -> (r: Vec<String>)
    ensures
        string_views(r@) == shell_setup_spec(shell_name@, dir@),
{
    let sc = chars_of(shell_name);
    let mut r: Vec<String> = Vec::new();
    if crate::text::eq_str(&sc, "zsh") {
        r.push(concat3("  echo 'export PATH=\"", dir, ":$PATH\"' >> ~/.zshrc"));
        r.push(string_from_str("  source ~/.zshrc"));
    } else if crate::text::eq_str(&sc, "fish") {
        r.push(concat2("  fish_add_path ", dir));
    } else {
        r.push(concat3("  echo 'export PATH=\"", dir, ":$PATH\"' >> ~/.bashrc"));
        r.push(string_from_str("  source ~/.bashrc"));
    }
    assert(string_views(r@) =~= shell_setup_spec(shell_name@, dir@));
    r
}

} // verus!
