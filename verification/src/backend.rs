//! Backend adapters and the decisions around backend commands: which adapter
//! serves a choice, how a typed backend command is split into arguments, and
//! what a finished command reports.

use vstd::prelude::*;
use crate::cli::BackendChoice;
use crate::domain::{
    BackendKind, CapabilitySnapshot, CockpitMode, CockpitState, EventKind, PermissionPosture,
    events_view, fake_capabilities_spec, fake_cockpit_spec, modules_view, not_found_note,
    runtime_modules_of, strs,
};
use crate::gateway::{ostr, ostr_ref};
use crate::runtime::{Reported, RuntimeSnapshot};
use crate::text::{
    eq_ignore_ascii_case, eq_ignore_ascii_case_str, char_is_ws, chars_of, concat2, eq_str,
    find_from_exec, find_sub, is_ws, lemma_find_from_some, lines, lines_of, push_str, slice_chars,
    split_once, split_once_chars, starts_with, starts_with_str, string_from_str, string_of, trim,
    trim_chars, trim_set_start, trim_set_start_chars, trim_start, trim_start_chars, uppercase, views,
};

verus! {

/// One progress event a backend command reported.
#[derive(Debug, Clone)]
pub struct BackendCommandEvent {
    pub kind: EventKind,
    pub label: String,
}

#[derive(Debug, Clone)]
pub struct BackendCommandResult {
    pub ok: bool,
    pub summary: String,
    pub audio_path: Option<String>,
    pub events: Vec<BackendCommandEvent>,
}

impl BackendCommandResult {
    /// A successful command with its summary and no audio.
    pub fn ok(summary: &str) -> (r: Self)
        ensures
            r.ok,
            r.summary@ == summary@,
            r.audio_path is None,
            r.events@.len() == 0,
    {
        BackendCommandResult {
            ok: true,
            summary: string_from_str(summary),
            audio_path: None,
            events: Vec::new(),
        }
    }

    /// A failed command with its summary and no audio.
    pub fn failed(summary: &str) -> (r: Self)
        ensures
            !r.ok,
            r.summary@ == summary@,
            r.audio_path is None,
            r.events@.len() == 0,
    {
        BackendCommandResult {
            ok: false,
            summary: string_from_str(summary),
            audio_path: None,
            events: Vec::new(),
        }
    }

    /// The same result with the given audio file.
    pub fn with_audio(self, audio_path: Option<String>) -> (r: Self)
        ensures
            r.ok == self.ok,
            r.summary == self.summary,
            r.audio_path == audio_path,
            r.events == self.events,
    {
        BackendCommandResult { ok: self.ok, summary: self.summary, audio_path, events: self.events }
    }
}

pub struct FakeBackend;

pub struct HermesBackend;

pub struct OpenClawBackend;

pub struct MissingBackend;

impl FakeBackend {
    pub fn label(&self) -> (r: &'static str)
        ensures
            r@ == "fake"@,
    {
        "fake"
    }

    /// The fixture backend's capabilities.
    pub fn probe(&self) -> (r: CapabilitySnapshot)
        ensures
            fake_capabilities_spec(r),
    {
        CapabilitySnapshot::fake()
    }

    /// The fixture cockpit.
    pub fn cockpit_state(&self) -> (r: CockpitState)
        ensures
            fake_cockpit_spec(r),
    {
        CockpitState::fake_listening()
    }

    /// The fixture backend echoes what it receives.
    pub fn route_prompt(&self, prompt: &str) -> (r: BackendCommandResult)
        ensures
            r.ok,
            r.summary@ == "fixture backend received: "@ + prompt@,
            r.audio_path is None,
    {
        let s = concat2("fixture backend received: ", prompt);
        BackendCommandResult { ok: true, summary: s, audio_path: None, events: Vec::new() }
    }
}

impl HermesBackend {
    pub fn label(&self) -> (r: &'static str)
        ensures
            r@ == "hermes"@,
    {
        "hermes"
    }
}

impl OpenClawBackend {
    pub fn label(&self) -> (r: &'static str)
        ensures
            r@ == "openclaw"@,
    {
        "openclaw"
    }
}

/// The cockpit of a backend whose command `name` was not found: disconnected,
/// nothing reported, every capability off, and one warning event.
pub open spec fn missing_cockpit_spec(r: CockpitState, name: Seq<char>) -> bool {
    &&& r.app_name@ == "Avu"@
    &&& r.mode == CockpitMode::Disconnected
    &&& r.backend == BackendKind::Missing
    &&& r.backend_label@ == uppercase(name)
    &&& r.model_label@ == "unreported"@
    &&& r.voice_label@ == "unreported"@
    &&& r.tools_active == 0 && r.cpu_percent == 0 && r.memory_percent == 0
    &&& r.capabilities.backend == BackendKind::Missing
    &&& !r.capabilities.reachable && !r.capabilities.events && !r.capabilities.approvals
    &&& !r.capabilities.interrupt && !r.capabilities.pause_resume
    &&& !r.capabilities.sessions_list && !r.capabilities.transcript
    &&& !r.capabilities.wake_available
    &&& r.capabilities.permission_posture == PermissionPosture::ObserveOnly
    &&& strs(r.capabilities.notes@) == seq![not_found_note(name)]
    &&& modules_view(r.modules@) == runtime_modules_of(
        Reported::Unreported,
        Reported::Unavailable,
        false,
        Reported::Unavailable,
        Reported::Unavailable,
    )
    &&& events_view(r.events@) == seq![(EventKind::Warning, "live backend unavailable"@)]
    &&& r.pending_approval is None
}

impl MissingBackend {
    pub fn label(&self) -> (r: &'static str)
        ensures
            r@ == "missing"@,
    {
        "missing"
    }

    /// No capabilities at all: an unreachable missing backend, observe-only,
    /// with one note that says its command was not found.
    pub fn probe(&self) -> (r: CapabilitySnapshot)
        ensures
            r.backend == BackendKind::Missing,
            !r.reachable && !r.events && !r.approvals && !r.interrupt && !r.pause_resume,
            !r.sessions_list && !r.transcript && !r.wake_available,
            r.permission_posture == PermissionPosture::ObserveOnly,
            strs(r.notes@) == seq![not_found_note("backend"@)],
    {
        CapabilitySnapshot::from_runtime(&RuntimeSnapshot::missing("backend"))
    }

    /// A disconnected cockpit for a backend whose command was not found.
    pub fn cockpit_state(&self) -> (r: CockpitState)
        ensures
            missing_cockpit_spec(r, "backend"@),
    {
        CockpitState::from_runtime(RuntimeSnapshot::missing("backend"))
    }

    /// Nothing to route a prompt to.
    pub fn route_prompt(&self, prompt: &str) -> (r: BackendCommandResult)
        ensures
            !r.ok,
            r.summary@ == "backend command was not found on PATH"@,
    {
        BackendCommandResult::failed("backend command was not found on PATH")
    }
}

/// The adapter that serves a backend choice.
#[derive(Debug, Clone, Copy, PartialEq, Eq, Structural)]
pub enum AdapterKind {
    Fake,
    Hermes,
    OpenClaw,
    Missing,
}

/// The adapter for a choice: `Auto` prefers Hermes, then OpenClaw, whichever
/// command is found on PATH.
pub open spec fn adapter_spec(choice: BackendChoice, hermes_found: bool, openclaw_found: bool) -> AdapterKind {
    match choice {
        BackendChoice::Fake => AdapterKind::Fake,
        BackendChoice::Hermes => AdapterKind::Hermes,
        BackendChoice::Openclaw => AdapterKind::OpenClaw,
        BackendChoice::Remote => AdapterKind::Missing,
        BackendChoice::Auto => if hermes_found {
            AdapterKind::Hermes
        } else if openclaw_found {
            AdapterKind::OpenClaw
        } else {
            AdapterKind::Missing
        },
    }
}

/// The adapter for a choice, given which backend commands are on PATH.
pub fn adapter_kind(choice: BackendChoice, hermes_found: bool, openclaw_found: bool) -> (r: AdapterKind)
    ensures
        r == adapter_spec(choice, hermes_found, openclaw_found),
{
    match choice {
        BackendChoice::Fake => AdapterKind::Fake,
        BackendChoice::Hermes => AdapterKind::Hermes,
        BackendChoice::Openclaw => AdapterKind::OpenClaw,
        BackendChoice::Remote => AdapterKind::Missing,
        BackendChoice::Auto => if hermes_found {
            AdapterKind::Hermes
        } else if openclaw_found {
            AdapterKind::OpenClaw
        } else {
            AdapterKind::Missing
        },
    }
}

/// The label of each adapter.
pub open spec fn adapter_label_spec(k: AdapterKind) -> Seq<char> {
    match k {
        AdapterKind::Fake => "fake"@,
        AdapterKind::Hermes => "hermes"@,
        AdapterKind::OpenClaw => "openclaw"@,
        AdapterKind::Missing => "missing"@,
    }
}

pub fn adapter_label(k: AdapterKind) -> (r: &'static str)
    ensures
        r@ == adapter_label_spec(k),
{
    match k {
        AdapterKind::Fake => "fake",
        AdapterKind::Hermes => "hermes",
        AdapterKind::OpenClaw => "openclaw",
        AdapterKind::Missing => "missing",
    }
}

/// What to do next for a backend command: report a result, or run a program
/// with arguments (interactively for a voice session).
#[derive(Debug, Clone)]
pub enum BackendStep {
    Done(BackendCommandResult),
    Run { program: String, args: Vec<String> },
}

/// The state of splitting a command line: arguments so far, the current
/// argument, the open quote, and whether a backslash is pending.
pub type SplitState = (Seq<Seq<char>>, Seq<char>, Option<char>, bool);

/// One character of a command line.
pub open spec fn split_step(st: SplitState, ch: char) -> SplitState {
    let (args, cur, quote, escape) = st;
    if escape {
        (args, cur.push(ch), quote, false)
    } else if ch == '\\' {
        (args, cur, quote, true)
    } else if (ch == '\'' || ch == '"') && quote == Some(ch) {
        (args, cur, None, false)
    } else if (ch == '\'' || ch == '"') && quote is None {
        (args, cur, Some(ch), false)
    } else if is_ws(ch) && quote is None {
        if cur.len() > 0 {
            (args.push(cur), Seq::empty(), quote, false)
        } else {
            (args, cur, quote, false)
        }
    } else {
        (args, cur.push(ch), quote, false)
    }
}

/// The splitting state after the characters `s`.
pub open spec fn split_fold(s: Seq<char>) -> SplitState
    decreases s.len(),
{
    if s.len() == 0 {
        (Seq::empty(), Seq::empty(), None, false)
    } else {
        split_step(split_fold(s.drop_last()), s.last())
    }
}

/// A command line split into arguments, shell-style: whitespace separates,
/// quotes group, a backslash takes the next character literally; an open
/// quote is an error.
pub open spec fn split_args_spec(s: Seq<char>) -> Option<Seq<Seq<char>>> {
    let (args, cur, quote, escape) = split_fold(s);
    let cur2 = if escape {
        cur.push('\\')
    } else {
        cur
    };
    if quote is Some {
        None
    } else if cur2.len() > 0 {
        Some(args.push(cur2))
    } else {
        Some(args)
    }
}

/// Splits a backend command line into arguments.
pub fn split_command_args(input: &str) -> (r: Result<Vec<String>, String>)
    ensures
        r matches Ok(v) ==> split_args_spec(input@) == Some(strs(v@)),
        r matches Err(e) ==> split_args_spec(input@) is None && e@
            == "unterminated quote in backend command"@,
{
    let chars = chars_of(input);
    let mut args: Vec<String> = Vec::new();
    let mut current: Vec<char> = Vec::new();
    let mut quote: Option<char> = None;
    let mut escape = false;
    let mut i: usize = 0;
    while i < chars.len()
        invariant
            i <= chars.len(),
            (strs(args@), current@, quote, escape) == split_fold(chars@.take(i as int)),
        decreases chars.len() - i,
    {
        assert(chars@.take(i + 1).drop_last() =~= chars@.take(i as int));
        let ch = chars[i];
        if escape {
            current.push(ch);
            escape = false;
        } else if ch == '\\' {
            escape = true;
        } else if (ch == '\'' || ch == '"') && quote == Some(ch) {
            quote = None;
        } else if (ch == '\'' || ch == '"') && quote.is_none() {
            quote = Some(ch);
        } else if char_is_ws(ch) && quote.is_none() {
            if current.len() > 0 {
                let ghost before = args@;
                args.push(string_of(&current));
                assert(strs(args@) =~= strs(before).push(current@));
                current = Vec::new();
            }
        } else {
            current.push(ch);
        }
        i += 1;
    }
    assert(chars@.take(chars.len() as int) =~= chars@);
    if escape {
        current.push('\\');
    }
    if quote.is_some() {
        return Err(string_from_str("unterminated quote in backend command"));
    }
    if current.len() > 0 {
        let ghost before = args@;
        args.push(string_of(&current));
        assert(strs(args@) =~= strs(before).push(current@));
    }
    Ok(args)
}

/// The quote left open after the characters `s`: a `'` or `"` outside a
/// quote opens one, the same character closes it, and the other quote
/// character inside is literal.
pub open spec fn open_quote(s: Seq<char>) -> Option<char>
    decreases s.len(),
{
    if s.len() == 0 {
        None
    } else {
        let q = open_quote(s.drop_last());
        let c = s.last();
        if (c == '\'' || c == '"') && q == Some(c) {
            None
        } else if (c == '\'' || c == '"') && q is None {
            Some(c)
        } else {
            q
        }
    }
}

/// The words of `s` as `str::split_whitespace` gives them: the maximal runs
/// of non-whitespace characters, in order. Scanned left to right: the words
/// so far and the word being read.
pub open spec fn ws_fold(s: Seq<char>) -> (Seq<Seq<char>>, Seq<char>)
    decreases s.len(),
{
    if s.len() == 0 {
        (Seq::empty(), Seq::empty())
    } else {
        let (words, cur) = ws_fold(s.drop_last());
        let c = s.last();
        if is_ws(c) {
            if cur.len() > 0 {
                (words.push(cur), Seq::empty())
            } else {
                (words, cur)
            }
        } else {
            (words, cur.push(c))
        }
    }
}

/// `str::split_whitespace` on characters.
pub open spec fn split_whitespace_spec(s: Seq<char>) -> Seq<Seq<char>> {
    let (words, cur) = ws_fold(s);
    if cur.len() > 0 {
        words.push(cur)
    } else {
        words
    }
}

proof fn lemma_split_fold_quotes(s: Seq<char>)
    requires
        forall|i: int| 0 <= i < s.len() ==> s[i] != '\\',
    ensures
        split_fold(s).2 == open_quote(s),
        !split_fold(s).3,
    decreases s.len(),
{
    if s.len() > 0 {
        lemma_split_fold_quotes(s.drop_last());
    }
}

proof fn lemma_split_fold_words(s: Seq<char>)
    requires
        forall|i: int|
            0 <= i < s.len() ==> s[i] != '\\' && s[i] != '\'' && #[trigger] s[i] != '"',
    ensures
        split_fold(s) == (ws_fold(s).0, ws_fold(s).1, None::<char>, false),
    decreases s.len(),
{
    if s.len() > 0 {
        lemma_split_fold_words(s.drop_last());
    }
}

/// Without backslashes, a command line is rejected exactly when a quote is
/// left open at its end.
pub proof fn law_open_quote_is_rejected(s: Seq<char>)
    requires
        forall|i: int| 0 <= i < s.len() ==> s[i] != '\\',
    ensures
        split_args_spec(s) is None <==> open_quote(s) is Some,
{
    lemma_split_fold_quotes(s);
}

/// A command line without quotes or backslashes splits into its words as
/// `str::split_whitespace` does.
pub proof fn law_plain_command_splits_on_whitespace(s: Seq<char>)
    requires
        forall|i: int|
            0 <= i < s.len() ==> s[i] != '\\' && s[i] != '\'' && #[trigger] s[i] != '"',
    ensures
        split_args_spec(s) == Some(split_whitespace_spec(s)),
{
    lemma_split_fold_words(s);
}

/// What a backend CLI command line leads to, given the adapter's label and
/// whether its command is on PATH.
pub open spec fn backend_cli_spec(label: Seq<char>, command_found: bool, text: Seq<char>) -> Result<
    Seq<Seq<char>>,
    Seq<char>,
> {
    let cmd = trim(trim_set_start(trim(text), seq!['/']));
    if cmd.len() == 0 {
        Err("empty backend command"@)
    } else if !(label == "hermes"@ || label == "openclaw"@) {
        Err("backend CLI command requires Hermes or OpenClaw"@)
    } else if !command_found {
        Err(label + " command was not found on PATH"@)
    } else {
        match split_args_spec(cmd) {
            None => Err("unterminated quote in backend command"@),
            Some(args) => if args.len() == 0 {
                Err("empty backend command"@)
            } else {
                Ok(args)
            },
        }
    }
}

/// How a `/command` typed for the backend's own CLI is handled: the program
/// to run with its arguments, or the failure to report.
pub fn run_backend_cli_command(adapter_label: &str, command_found: bool, command_text: &str) -> (r:
    BackendStep)
    ensures
        backend_cli_spec(adapter_label@, command_found, command_text@) matches Ok(args) ==> (
        r matches BackendStep::Run { program, args: a } && program@ == adapter_label@ && strs(a@)
            == args),
        backend_cli_spec(adapter_label@, command_found, command_text@) matches Err(msg) ==> (
        r matches BackendStep::Done(res) && !res.ok && res.summary@ == msg && res.audio_path is None
            && res.events@.len() == 0),
{
    let tc = chars_of(command_text);
    let t1 = trim_chars(&tc);
    let slash: Vec<char> = vec!['/'];
    assert(slash@ =~= seq!['/']);
    let t2 = trim_set_start_chars(&t1, &slash);
    let cmd = trim_chars(&t2);
    if cmd.len() == 0 {
        return BackendStep::Done(BackendCommandResult::failed("empty backend command"));
    }
    let lc = chars_of(adapter_label);
    if !(eq_str(&lc, "hermes") || eq_str(&lc, "openclaw")) {
        return BackendStep::Done(
            BackendCommandResult::failed("backend CLI command requires Hermes or OpenClaw"),
        );
    }
    if !command_found {
        let msg = concat2(adapter_label, " command was not found on PATH");
        return BackendStep::Done(BackendCommandResult { ok: false, summary: msg, audio_path: None, events: Vec::new() });
    }
    let cmd_s = string_of(&cmd);
    match split_command_args(cmd_s.as_str()) {
        Err(e) => BackendStep::Done(BackendCommandResult { ok: false, summary: e, audio_path: None, events: Vec::new() }),
        Ok(args) => {
            if args.len() == 0 {
                BackendStep::Done(BackendCommandResult::failed("empty backend command"))
            } else {
                BackendStep::Run { program: string_from_str(adapter_label), args }
            }
        },
    }
}

/// How the voice handoff is handled for an adapter: Hermes' own TUI runs
/// interactively (when its command is on PATH); other backends cannot.
pub fn run_voice_session(adapter_label: &str, command_found: bool) -> (r: BackendStep)
    ensures
        adapter_label@ == "hermes"@ && command_found ==> (r matches BackendStep::Run { program, args }
            && program@ == "hermes"@ && strs(args@) == seq!["--continue"@, "avu-tui"@, "--tui"@]),
        adapter_label@ == "hermes"@ && !command_found ==> (r matches BackendStep::Done(res)
            && !res.ok && res.summary@ == "hermes command was not found on PATH"@ && res.audio_path is None
            && res.events@.len() == 0),
        adapter_label@ == "openclaw"@ ==> (r matches BackendStep::Done(res) && !res.ok
            && res.summary@ == "OpenClaw voice handoff is not available through Avu yet"@
            && res.audio_path is None && res.events@.len() == 0),
        adapter_label@ != "hermes"@ && adapter_label@ != "openclaw"@ ==> (r matches BackendStep::Done(
            res,
        ) && !res.ok && res.summary@ == "voice requires a live Hermes backend on PATH"@
            && res.audio_path is None && res.events@.len() == 0),
{
    proof {
        reveal_strlit("hermes");
        reveal_strlit("openclaw");
        assert("hermes"@.len() == 6);
        assert("openclaw"@.len() == 8);
    }
    let lc = chars_of(adapter_label);
    if eq_str(&lc, "hermes") {
        if !command_found {
            return BackendStep::Done(
                BackendCommandResult::failed("hermes command was not found on PATH"),
            );
        }
        let mut args: Vec<String> = Vec::new();
        args.push(string_from_str("--continue"));
        args.push(string_from_str("avu-tui"));
        args.push(string_from_str("--tui"));
        assert(strs(args@) =~= seq!["--continue"@, "avu-tui"@, "--tui"@]);
        BackendStep::Run { program: string_from_str("hermes"), args }
    } else if eq_str(&lc, "openclaw") {
        BackendStep::Done(
            BackendCommandResult::failed("OpenClaw voice handoff is not available through Avu yet"),
        )
    } else {
        BackendStep::Done(
            BackendCommandResult::failed("voice requires a live Hermes backend on PATH"),
        )
    }
}

/// The arguments with which a prompt is sent to a backend command: Hermes
/// continues the `avu-tui` session in one-shot mode.
pub fn prompt_args(command: &str, prompt: &str) -> (r: Vec<String>)
    ensures
        command@ == "hermes"@ ==> strs(r@) == seq![
            "--continue"@,
            "avu-tui"@,
            "--oneshot"@,
            prompt@,
        ],
        command@ == "openclaw"@ ==> strs(r@) == seq!["agent"@, "--message"@, prompt@],
        command@ != "hermes"@ && command@ != "openclaw"@ ==> strs(r@) == seq![prompt@],
{
    proof {
        reveal_strlit("hermes");
        reveal_strlit("openclaw");
        assert("hermes"@.len() == 6);
        assert("openclaw"@.len() == 8);
    }
    let cc = chars_of(command);
    let mut r: Vec<String> = Vec::new();
    if eq_str(&cc, "hermes") {
        r.push(string_from_str("--continue"));
        r.push(string_from_str("avu-tui"));
        r.push(string_from_str("--oneshot"));
        r.push(string_from_str(prompt));
        assert(strs(r@) =~= seq!["--continue"@, "avu-tui"@, "--oneshot"@, prompt@]);
    } else if eq_str(&cc, "openclaw") {
        r.push(string_from_str("agent"));
        r.push(string_from_str("--message"));
        r.push(string_from_str(prompt));
        assert(strs(r@) =~= seq!["agent"@, "--message"@, prompt@]);
    } else {
        r.push(string_from_str(prompt));
        assert(strs(r@) =~= seq![prompt@]);
    }
    r
}

/// An audio file found in a backend's cache, with its modification time.
#[derive(Debug, Clone)]
pub struct AudioCandidate {
    pub path: String,
    pub modified: u128,
}

/// The audio file produced by a command: the latest one after it, when it is
/// newer than the latest one before it.
pub fn newer_audio<'a>(before: Option<&AudioCandidate>, after: Option<&'a AudioCandidate>) -> (r:
    Option<&'a String>)
    ensures
        after is None ==> r is None,
        after matches Some(a) ==> (if before is None || a.modified > before->0.modified {
            r == Some(&a.path)
        } else {
            r is None
        }),
{
    let a = match after {
        Some(a) => a,
        None => {
            return None;
        },
    };
    match before {
        None => Some(&a.path),
        Some(b) => if a.modified > b.modified {
            Some(&a.path)
        } else {
            None
        },
    }
}

/// The result of a prompt with its generated audio noted: the audio file and
/// how it was played are appended to the summary.
pub open spec fn audio_note_spec(summary: Seq<char>, audio: Seq<char>, played: Option<Seq<char>>) -> Seq<char> {
    summary + " · audio: "@ + audio + " ("@ + match played {
        Some(p) => p,
        None => "no audio player found"@,
    } + ")"@
}

/// The prompt result once the audio it produced is known.
pub fn finish_prompt_result(result: BackendCommandResult, new_audio: Option<String>, played: Option<String>) -> (r:
    BackendCommandResult)
    ensures
        r.ok == result.ok,
        ostr(r.audio_path) == ostr(new_audio),
        r.events == result.events,
        new_audio is None ==> r.summary@ == result.summary@,
        new_audio matches Some(a) ==> r.summary@ == audio_note_spec(result.summary@, a@, ostr(played)),
{
    match new_audio {
        None => result.with_audio(None),
        Some(a) => {
            let playback = match played {
                Some(p) => p,
                None => string_from_str("no audio player found"),
            };
            let mut summary = result.summary.clone();
            push_str(&mut summary, " · audio: ");
            push_str(&mut summary, a.as_str());
            push_str(&mut summary, " (");
            push_str(&mut summary, playback.as_str());
            push_str(&mut summary, ")");
            BackendCommandResult { ok: result.ok, summary, audio_path: Some(a), events: result.events }
        },
    }
}

/// The audio path announced by a `MEDIA:` line.
pub open spec fn media_path_spec(line: Seq<char>) -> Option<Seq<char>> {
    if starts_with(line, "MEDIA:"@) {
        let p = trim(line.skip(6));
        if p.len() > 0 {
            Some(p)
        } else {
            None
        }
    } else {
        None
    }
}

/// The audio path announced by a `MEDIA:` line.
pub fn media_path_from_line(line: &Vec<char>) -> (r: Option<String>)
    ensures
        ostr(r) == media_path_spec(line@),
{
    if !starts_with_str(line, "MEDIA:") {
        return None;
    }
    proof {
        reveal_strlit("MEDIA:");
    }
    let rest = slice_chars(line, 6, line.len());
    assert(rest@ =~= line@.skip(6));
    let p = trim_chars(&rest);
    if p.len() > 0 {
        Some(string_of(&p))
    } else {
        None
    }
}

/// The trimmed, non-empty lines among `ls`.
pub open spec fn nonblank_trimmed(ls: Seq<Seq<char>>) -> Seq<Seq<char>>
    decreases ls.len(),
{
    if ls.len() == 0 {
        Seq::empty()
    } else if trim(ls.last()).len() == 0 {
        nonblank_trimmed(ls.drop_last())
    } else {
        nonblank_trimmed(ls.drop_last()).push(trim(ls.last()))
    }
}

/// The first audio path announced among `ls` from `k` on.
pub open spec fn first_media_from(ls: Seq<Seq<char>>, k: int) -> Option<Seq<char>>
    decreases ls.len() - k,
{
    if k < 0 || k >= ls.len() {
        None
    } else if media_path_spec(ls[k]) is Some {
        media_path_spec(ls[k])
    } else {
        first_media_from(ls, k + 1)
    }
}

/// A line that reports something: neither a media announcement nor the
/// voice marker.
pub open spec fn reporting_line(l: Seq<char>) -> bool {
    !starts_with(l, "MEDIA:"@) && l != "[[audio_as_voice]]"@
}

/// The first reporting line among `ls` from `k` on.
pub open spec fn first_report_from(ls: Seq<Seq<char>>, k: int) -> Option<Seq<char>>
    decreases ls.len() - k,
{
    if k < 0 || k >= ls.len() {
        None
    } else if reporting_line(ls[k]) {
        Some(ls[k])
    } else {
        first_report_from(ls, k + 1)
    }
}

/// What a finished backend command reports: its first reporting line of
/// output (stdout, then stderr), or that it generated audio, or a default.
pub open spec fn summary_spec(success: bool, ls: Seq<Seq<char>>) -> Seq<char> {
    match first_report_from(ls, 0) {
        Some(l) => l,
        None => if first_media_from(ls, 0) is Some {
            "backend generated audio"@
        } else if success {
            "backend command completed"@
        } else {
            "backend command failed without output"@
        },
    }
}

/// The output lines of a finished command.
pub open spec fn output_lines(stdout: Seq<char>, stderr: Seq<char>) -> Seq<Seq<char>> {
    nonblank_trimmed(lines_of(stdout) + lines_of(stderr))
}

fn push_nonblank(out: &mut Vec<Vec<char>>, ls: &Vec<Vec<char>>)
    ensures
        forall|pre: Seq<Seq<char>>|
            #![trigger nonblank_trimmed(pre.add(views(ls@)))]
            views(old(out)@) == nonblank_trimmed(pre) ==> views(final(out)@) == nonblank_trimmed(
                pre.add(views(ls@)),
            ),
{
    let ghost start = views(out@);
    let mut i: usize = 0;
    while i < ls.len()
        invariant
            i <= ls.len(),
            start == views(old(out)@),
            forall|pre: Seq<Seq<char>>|
                #![trigger nonblank_trimmed(pre.add(views(ls@).take(i as int)))]
                start == nonblank_trimmed(pre) ==> views(out@) == nonblank_trimmed(
                    pre.add(views(ls@).take(i as int)),
                ),
        decreases ls.len() - i,
    {
        let t = trim_chars(&ls[i]);
        let ghost before = views(out@);
        if t.len() > 0 {
            out.push(t);
        }
        proof {
            assert forall|pre: Seq<Seq<char>>|
                #![trigger nonblank_trimmed(pre.add(views(ls@).take(i + 1)))]
                start == nonblank_trimmed(pre) implies views(out@) == nonblank_trimmed(
                pre.add(views(ls@).take(i + 1)),
            ) by {
                assert(pre.add(views(ls@).take(i + 1)).drop_last() =~= pre.add(
                    views(ls@).take(i as int),
                ));
                assert(pre.add(views(ls@).take(i + 1)).last() == ls@[i as int]@);
                assert(before == nonblank_trimmed(pre.add(views(ls@).take(i as int))));
                if t.len() > 0 {
                    assert(views(out@) =~= before.push(t@));
                } else {
                    assert(views(out@) =~= before);
                }
            }
        }
        i += 1;
    }
    proof {
        assert(views(ls@).take(ls.len() as int) =~= views(ls@));
    }
}

/// What a finished backend command reports, from its exit status and output.
pub fn summarize_output(success: bool, stdout: &str, stderr: &str) -> (r: BackendCommandResult)
    ensures
        r.ok == success,
        r.summary@ == summary_spec(success, output_lines(stdout@, stderr@)),
        ostr(r.audio_path) == first_media_from(output_lines(stdout@, stderr@), 0),
{
    let oc = chars_of(stdout);
    let ec = chars_of(stderr);
    let lo = lines(&oc);
    let le = lines(&ec);
    let mut all: Vec<Vec<char>> = Vec::new();
    proof {
        assert(views(all@) =~= nonblank_trimmed(Seq::<Seq<char>>::empty()));
    }
    push_nonblank(&mut all, &lo);
    proof {
        assert(Seq::<Seq<char>>::empty().add(views(lo@)) =~= views(lo@));
    }
    push_nonblank(&mut all, &le);
    proof {
        assert(views(all@) == nonblank_trimmed(views(lo@).add(views(le@))));
    }
    let ghost ls = views(all@);
    assert(ls == output_lines(stdout@, stderr@));
    // audio path
    let mut audio: Option<String> = None;
    let mut k: usize = 0;
    while k < all.len() && audio.is_none()
        invariant
            k <= all.len(),
            ls == views(all@),
            audio is None ==> first_media_from(ls, k as int) == first_media_from(ls, 0),
            audio is Some ==> ostr(audio) == first_media_from(ls, 0),
        decreases all.len() - k,
    {
        assert(ls[k as int] == all@[k as int]@);
        audio = media_path_from_line(&all[k]);
        k += 1;
    }
    assert(ostr(audio) == first_media_from(ls, 0));
    // summary line
    let mut summary: Option<String> = None;
    let mut j: usize = 0;
    while j < all.len() && summary.is_none()
        invariant
            j <= all.len(),
            ls == views(all@),
            summary is None ==> first_report_from(ls, j as int) == first_report_from(ls, 0),
            summary is Some ==> ostr(summary) == first_report_from(ls, 0),
        decreases all.len() - j,
    {
        assert(ls[j as int] == all@[j as int]@);
        let l = &all[j];
        proof {
            reveal_strlit("MEDIA:");
            reveal_strlit("[[audio_as_voice]]");
        }
        if !starts_with_str(l, "MEDIA:") && !eq_str(l, "[[audio_as_voice]]") {
            summary = Some(string_of(l));
        }
        j += 1;
    }
    assert(ostr(summary) == first_report_from(ls, 0));
    let text = match summary {
        Some(s) => s,
        None => if audio.is_some() {
            string_from_str("backend generated audio")
        } else if success {
            string_from_str("backend command completed")
        } else {
            string_from_str("backend command failed without output")
        },
    };
    BackendCommandResult { ok: success, summary: text, audio_path: audio, events: Vec::new() }
}

/// The ALSA device named by one line of `aplay -l`.
pub open spec fn alsa_device_spec(line: Seq<char>) -> Option<Seq<char>> {
    let t = trim_start(line);
    if !starts_with(t, "card "@) {
        None
    } else {
        match split_once(t.skip(5), ':') {
            None => None,
            Some(p) => match find_sub(p.1, "device "@) {
                None => None,
                Some(i) => {
                    let after = p.1.skip(i + 7);
                    let seg = match find_sub(after, "device "@) {
                        Some(j) => after.take(j),
                        None => after,
                    };
                    match split_once(seg, ':') {
                        None => None,
                        Some(q) => Some("hw:"@ + trim(p.0) + ","@ + trim(q.0)),
                    }
                },
            },
        }
    }
}

/// The devices named from line `k` on.
pub open spec fn alsa_devices_from(ls: Seq<Seq<char>>, k: int) -> Seq<Seq<char>>
    decreases ls.len() - k,
{
    if k < 0 || k >= ls.len() {
        Seq::empty()
    } else {
        match alsa_device_spec(ls[k]) {
            Some(d) => seq![d] + alsa_devices_from(ls, k + 1),
            None => alsa_devices_from(ls, k + 1),
        }
    }
}

fn alsa_device(line: &Vec<char>) -> (r: Option<String>)
    ensures
        ostr(r) == alsa_device_spec(line@),
{
    let t = trim_start_chars(line);
    if !starts_with_str(&t, "card ") {
        return None;
    }
    proof {
        reveal_strlit("card ");
        reveal_strlit("device ");
    }
    let card_part = slice_chars(&t, 5, t.len());
    assert(card_part@ =~= t@.skip(5));
    let (card, rest) = match split_once_chars(&card_part, ':') {
        Some(p) => p,
        None => {
            return None;
        },
    };
    let dev = chars_of("device ");
    let i = match find_from_exec(&rest, &dev, 0) {
        Some(i) => i,
        None => {
            return None;
        },
    };
    proof {
        lemma_find_from_some(rest@, dev@, 0);
    }
    let after = slice_chars(&rest, i + 7, rest.len());
    assert(after@ =~= rest@.skip(i + 7));
    let seg = match find_from_exec(&after, &dev, 0) {
        Some(j) => {
            proof {
                lemma_find_from_some(after@, dev@, 0);
            }
            let s = slice_chars(&after, 0, j);
            assert(s@ =~= after@.take(j as int));
            s
        },
        None => after,
    };
    let (device, _) = match split_once_chars(&seg, ':') {
        Some(p) => p,
        None => {
            return None;
        },
    };
    let c = trim_chars(&card);
    let d = trim_chars(&device);
    let mut out = string_from_str("hw:");
    push_str(&mut out, string_of(&c).as_str());
    push_str(&mut out, ",");
    push_str(&mut out, string_of(&d).as_str());
    Some(out)
}

/// The ALSA hardware devices (`hw:card,device`) listed by `aplay -l`.
pub fn parse_alsa_hardware_devices(text: &str) -> (r: Vec<String>)
    ensures
        strs(r@) == alsa_devices_from(lines_of(text@), 0),
{
    let tc = chars_of(text);
    let ls = lines(&tc);
    let mut out: Vec<String> = Vec::new();
    let mut k: usize = 0;
    while k < ls.len()
        invariant
            k <= ls.len(),
            tc@ == text@,
            views(ls@) == lines_of(tc@),
            strs(out@) + alsa_devices_from(views(ls@), k as int) == alsa_devices_from(
                views(ls@),
                0,
            ),
        decreases ls.len() - k,
    {
        assert(views(ls@)[k as int] == ls@[k as int]@);
        match alsa_device(&ls[k]) {
            Some(d) => {
                let ghost before = strs(out@);
                out.push(d);
                assert(strs(out@) =~= before.push(d@));
                assert(before.push(d@) + alsa_devices_from(views(ls@), k + 1) =~= before + (seq![
                    d@,
                ] + alsa_devices_from(views(ls@), k + 1)));
            },
            None => {},
        }
        k += 1;
    }
    assert(strs(out@) =~= strs(out@) + alsa_devices_from(views(ls@), k as int));
    out
}

/// A session audio sink is present: `pactl` lists a sink, or `wpctl` shows a
/// `Sinks:` section.
pub open spec fn session_sink_spec(pactl: Option<Seq<char>>, wpctl: Option<Seq<char>>) -> bool {
    (pactl is Some && exists|i: int|
        0 <= i < lines_of(pactl->0).len() && trim(#[trigger] lines_of(pactl->0)[i]).len() > 0) || (
    wpctl is Some && exists|i: int|
        0 <= i < lines_of(wpctl->0).len() && starts_with(
            trim_start(#[trigger] lines_of(wpctl->0)[i]),
            "Sinks:"@,
        ))
}

fn any_nonblank_line(t: &str) -> (r: bool)
    ensures
        r == exists|i: int| 0 <= i < lines_of(t@).len() && trim(#[trigger] lines_of(t@)[i]).len() > 0,
{
    let tc = chars_of(t);
    let ls = lines(&tc);
    let mut i: usize = 0;
    while i < ls.len()
        invariant
            i <= ls.len(),
            views(ls@) == lines_of(t@),
            forall|j: int| 0 <= j < i ==> trim(#[trigger] views(ls@)[j]).len() == 0,
        decreases ls.len() - i,
    {
        assert(views(ls@)[i as int] == ls@[i as int]@);
        let tl = trim_chars(&ls[i]);
        if tl.len() > 0 {
            assert(trim(views(ls@)[i as int]).len() > 0);
            return true;
        }
        i += 1;
    }
    false
}

/// Whether some line of `t`, leading whitespace aside, starts with `prefix`.
pub fn any_line_starts_with(t: &str, prefix: &str) -> (r: bool)
    ensures
        r == exists|i: int|
            0 <= i < lines_of(t@).len() && starts_with(
                trim_start(#[trigger] lines_of(t@)[i]),
                prefix@,
            ),
{
    let tc = chars_of(t);
    let ls = lines(&tc);
    let mut i: usize = 0;
    while i < ls.len()
        invariant
            i <= ls.len(),
            views(ls@) == lines_of(t@),
            forall|j: int|
                0 <= j < i ==> !starts_with(trim_start(#[trigger] views(ls@)[j]), prefix@),
        decreases ls.len() - i,
    {
        assert(views(ls@)[i as int] == ls@[i as int]@);
        let tl = trim_start_chars(&ls[i]);
        if starts_with_str(&tl, prefix) {
            assert(starts_with(trim_start(views(ls@)[i as int]), prefix@));
            return true;
        }
        i += 1;
    }
    false
}

/// Whether the session has an audio sink, from `pactl list short sinks` and
/// `wpctl status` output.
pub fn has_session_audio_sink(pactl: Option<&str>, wpctl: Option<&str>) -> (r: bool)
    ensures
        r == session_sink_spec(ostr_ref(pactl), ostr_ref(wpctl)),
{
    let a = match pactl {
        Some(t) => any_nonblank_line(t),
        None => false,
    };
    let b = match wpctl {
        Some(t) => any_line_starts_with(t, "Sinks:"),
        None => false,
    };
    assert(a == (ostr_ref(pactl) is Some && exists|i: int|
        0 <= i < lines_of(ostr_ref(pactl)->0).len() && trim(#[trigger] lines_of(ostr_ref(pactl)->0)[i]).len() > 0));
    a || b
}

/// An audio file a backend leaves behind: `mp3`, `wav`, `ogg` or `m4a`,
/// in any case.
pub open spec fn audio_extension(ext: Seq<char>) -> bool {
    eq_ignore_ascii_case(ext, "mp3"@) || eq_ignore_ascii_case(ext, "wav"@) || eq_ignore_ascii_case(
        ext,
        "ogg"@,
    ) || eq_ignore_ascii_case(ext, "m4a"@)
}

/// Whether a file extension names an audio file a backend leaves behind.
pub fn is_audio_extension(ext: &str) -> (r: bool)
    ensures
        r == audio_extension(ext@),
{
    let ec = chars_of(ext);
    eq_ignore_ascii_case_str(&ec, "mp3") || eq_ignore_ascii_case_str(&ec, "wav")
        || eq_ignore_ascii_case_str(&ec, "ogg") || eq_ignore_ascii_case_str(&ec, "m4a")
}

/// Whether a file with this extension must be converted before `aplay`
/// can play it: everything but `wav` (in any case).
pub fn alsa_needs_conversion(ext: &str) -> (r: bool)
    ensures
        r == !eq_ignore_ascii_case(ext@, "wav"@),
{
    let ec = chars_of(ext);
    !eq_ignore_ascii_case_str(&ec, "wav")
}

/// The newest of the found audio files: the last of those modified most
/// recently, or none when there are none.
pub fn latest_audio(cands: &Vec<AudioCandidate>) -> (r: Option<usize>)
    ensures
        r is None <==> cands@.len() == 0,
        r matches Some(i) ==> i < cands@.len() && (forall|j: int|
            0 <= j < cands@.len() ==> #[trigger] cands@[j].modified <= cands@[i as int].modified)
            && (forall|j: int|
            i < j < cands@.len() ==> #[trigger] cands@[j].modified < cands@[i as int].modified),
{
    if cands.len() == 0 {
        return None;
    }
    let mut best: usize = 0;
    let mut k: usize = 1;
    while k < cands.len()
        invariant
            1 <= k <= cands.len(),
            best < k,
            forall|j: int| 0 <= j < k ==> #[trigger] cands@[j].modified <= cands@[best as int].modified,
            forall|j: int| best < j < k ==> #[trigger] cands@[j].modified < cands@[best as int].modified,
        decreases cands.len() - k,
    {
        if cands[k].modified >= cands[best].modified {
            best = k;
        }
        k += 1;
    }
    Some(best)
}

/// How a typed shell command is run: through `sh -lc` (or `cmd /C` on
/// Windows) once trimmed; an empty one is refused.
pub fn shell_command_step(command: &str, windows: bool) -> (r: BackendStep)
    ensures
        trim(command@).len() == 0 ==> (r matches BackendStep::Done(res) && !res.ok && res.summary@
            == "empty shell command"@),
        trim(command@).len() > 0 && !windows ==> (r matches BackendStep::Run { program, args }
            && program@ == "sh"@ && strs(args@) == seq!["-lc"@, trim(command@)]),
        trim(command@).len() > 0 && windows ==> (r matches BackendStep::Run { program, args }
            && program@ == "cmd"@ && strs(args@) == seq!["/C"@, trim(command@)]),
{
    let cc = chars_of(command);
    let t = trim_chars(&cc);
    if t.len() == 0 {
        return BackendStep::Done(BackendCommandResult::failed("empty shell command"));
    }
    let mut args: Vec<String> = Vec::new();
    if windows {
        args.push(string_from_str("/C"));
        args.push(string_of(&t));
        assert(strs(args@) =~= seq!["/C"@, trim(command@)]);
        BackendStep::Run { program: string_from_str("cmd"), args }
    } else {
        args.push(string_from_str("-lc"));
        args.push(string_of(&t));
        assert(strs(args@) =~= seq!["-lc"@, trim(command@)]);
        BackendStep::Run { program: string_from_str("sh"), args }
    }
}

} // verus!
