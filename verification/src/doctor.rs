//! The checks behind `avu doctor`: what each probe's output means, and the
//! report assembled from them.
use vstd::prelude::*;
use crate::backend::{has_session_audio_sink, session_sink_spec};
use crate::domain::CapabilitySnapshot;
use crate::gateway::{ostr, ostr_ref};
use crate::text::{
    chars_of, compact, compact_chars, concat2, concat3, contains_str, eq_str, has_sub, join,
    join_strings, lines, lines_of, lower_chars, lower_str, lowercase, push_str, starts_with,
    string_from_str, string_of, string_views, trim, trim_chars, trim_start, views,
};
use crate::voice_activation::VoiceActivationStatus;

verus! {

/// One line of the doctor report.
#[derive(Debug, Clone)]
pub struct DoctorCheck {
    pub name: String,
    pub ok: bool,
    pub detail: String,
}

/// What a Hermes TUI launch probe revealed.
#[derive(Debug, Clone)]
pub struct ProbeClassification {
    pub ok: bool,
    pub detail: String,
}

/// The whole doctor report.
#[derive(Debug, Clone)]
pub struct DoctorReport {
    pub ok: bool,
    pub config_home: String,
    pub backend_label: String,
    pub capability: CapabilitySnapshot,
    pub checks: Vec<DoctorCheck>,
}

/// The longest sample of probe output that a detail quotes.
pub const DETAIL_SAMPLE_CHARS: usize = 180;

/// The first line among `ls` from `k` on that is not blank, trimmed.
pub open spec fn first_nonblank_from(ls: Seq<Seq<char>>, k: int) -> Option<Seq<char>>
    decreases ls.len() - k,
{
    if k < 0 || k >= ls.len() {
        None
    } else if trim(ls[k]).len() > 0 {
        Some(trim(ls[k]))
    } else {
        first_nonblank_from(ls, k + 1)
    }
}

/// `prefix: sample`, where the sample is the first non-blank line of `text`
/// cut to the sample length.
pub open spec fn probe_detail_spec(prefix: Seq<char>, text: Option<Seq<char>>) -> Seq<char> {
    let t = match text {
        Some(t) => t,
        None => Seq::empty(),
    };
    let sample = match first_nonblank_from(lines_of(t), 0) {
        Some(l) => l,
        None => "no details reported"@,
    };
    prefix + ": "@ + compact(sample, DETAIL_SAMPLE_CHARS as int)
}

/// What a Hermes TUI probe's output says, read case-insensitively: known
/// install, build, runtime and session failures first, then launch failures;
/// anything else passes.
pub open spec fn probe_spec(output: Seq<char>) -> (bool, Seq<char>) {
    let lower = lowercase(output);
    if has_sub(lower, "npm install failed"@) || has_sub(lower, "enotempty"@) {
        (false, "Hermes TUI dependency install failed; repair with `cd ~/.hermes/hermes-agent/ui-tui && rm -rf node_modules package-lock.json && npm install`"@)
    } else if has_sub(lower, "tui build failed"@) || has_sub(lower, "could not resolve \"yoga-layout\""@)
        || has_sub(lower, "could not resolve 'yoga-layout'"@) {
        (false, "Hermes TUI voice build failed resolving `yoga-layout`; repair Hermes ui-tui dependencies or update Hermes before AVU Ctrl+B voice can record"@)
    } else if (has_sub(lower, "cannot read properties of null"@) && has_sub(lower, "usestate"@))
        || has_sub(lower, "reactsharedinternals.h.usestate"@) {
        (false, "Hermes TUI voice runtime failed inside React/useState; update or repair Hermes ui-tui dependencies before AVU Ctrl+B voice can record"@)
    } else if has_sub(lower, "no session found"@) {
        (false, "Hermes TUI could not resume a session; Avu should use `hermes --continue --tui` and user can run `hermes sessions list`"@)
    } else if has_sub(lower, "command not found"@) || has_sub(lower, "no such file"@) {
        (false, probe_detail_spec("Hermes TUI launch failed"@, Some(output)))
    } else if trim(output).len() == 0 {
        (true, "Hermes TUI launch probe produced no startup error before timeout; Ctrl+B handoff should open Hermes voice/TUI"@)
    } else {
        (true, probe_detail_spec("Hermes TUI launch probe did not report known startup errors"@, Some(output)))
    }
}

fn first_nonblank_line(text: &str) -> (r: Option<Vec<char>>)
    ensures
        match r {
            Some(l) => first_nonblank_from(lines_of(text@), 0) == Some(l@),
            None => first_nonblank_from(lines_of(text@), 0) is None,
        },
{
    let tc = chars_of(text);
    let ls = lines(&tc);
    let mut k: usize = 0;
    while k < ls.len()
        invariant
            k <= ls.len(),
            views(ls@) == lines_of(text@),
            first_nonblank_from(views(ls@), k as int) == first_nonblank_from(views(ls@), 0),
        decreases ls.len() - k,
    {
        assert(views(ls@)[k as int] == ls@[k as int]@);
        let t = trim_chars(&ls[k]);
        if t.len() > 0 {
            return Some(t);
        }
        k += 1;
    }
    None
}

/// `prefix: sample` for a probe's output: its first non-blank line, at most
/// the sample length, or a note that nothing was reported.
pub fn compact_probe_detail(prefix: &str, text: Option<&str>) -> (r: String)
    ensures
        r@ == probe_detail_spec(prefix@, ostr_ref(text)),
{
    let found = match text {
        Some(t) => first_nonblank_line(t),
        None => None,
    };
    let sample = match found {
        Some(l) => l,
        None => chars_of("no details reported"),
    };
    let c = compact_chars(&sample, DETAIL_SAMPLE_CHARS);
    concat3(prefix, ": ", string_of(&c).as_str())
}

/// What a Hermes TUI probe's output says.
pub fn classify_hermes_tui_probe(output: &str) -> (r: ProbeClassification)
    ensures
        r.ok == probe_spec(output@).0,
        r.detail@ == probe_spec(output@).1,
{
    let lc = lower_str(output);
    if contains_str(&lc, "npm install failed") || contains_str(&lc, "enotempty") {
        return ProbeClassification {
            ok: false,
            detail: string_from_str(
                "Hermes TUI dependency install failed; repair with `cd ~/.hermes/hermes-agent/ui-tui && rm -rf node_modules package-lock.json && npm install`",
            ),
        };
    }
    if contains_str(&lc, "tui build failed") || contains_str(&lc, "could not resolve \"yoga-layout\"")
        || contains_str(&lc, "could not resolve 'yoga-layout'") {
        return ProbeClassification {
            ok: false,
            detail: string_from_str(
                "Hermes TUI voice build failed resolving `yoga-layout`; repair Hermes ui-tui dependencies or update Hermes before AVU Ctrl+B voice can record",
            ),
        };
    }
    if (contains_str(&lc, "cannot read properties of null") && contains_str(&lc, "usestate"))
        || contains_str(&lc, "reactsharedinternals.h.usestate") {
        return ProbeClassification {
            ok: false,
            detail: string_from_str(
                "Hermes TUI voice runtime failed inside React/useState; update or repair Hermes ui-tui dependencies before AVU Ctrl+B voice can record",
            ),
        };
    }
    if contains_str(&lc, "no session found") {
        return ProbeClassification {
            ok: false,
            detail: string_from_str(
                "Hermes TUI could not resume a session; Avu should use `hermes --continue --tui` and user can run `hermes sessions list`",
            ),
        };
    }
    if contains_str(&lc, "command not found") || contains_str(&lc, "no such file") {
        return ProbeClassification {
            ok: false,
            detail: compact_probe_detail("Hermes TUI launch failed", Some(output)),
        };
    }
    let oc = chars_of(output);
    let t = trim_chars(&oc);
    let detail = if t.len() == 0 {
        string_from_str(
            "Hermes TUI launch probe produced no startup error before timeout; Ctrl+B handoff should open Hermes voice/TUI",
        )
    } else {
        compact_probe_detail(
            "Hermes TUI launch probe did not report known startup errors",
            Some(output),
        )
    };
    ProbeClassification { ok: true, detail }
}

/// A source line that is a real input: not blank, and not a `.monitor`
/// source (compared case-insensitively on the line as given).
pub open spec fn non_monitor_line(l: Seq<char>) -> bool {
    trim(l).len() > 0 && !has_sub(lowercase(l), ".monitor"@)
}

/// Whether `pactl list short sources` output names a source other than a
/// monitor of an output.
pub fn non_monitor_source_seen(text: &str) -> (r: bool)
    ensures
        r == exists|i: int| 0 <= i < lines_of(text@).len() && non_monitor_line(#[trigger] lines_of(text@)[i]),
{
    let tc = chars_of(text);
    let ls = lines(&tc);
    let mut i: usize = 0;
    while i < ls.len()
        invariant
            i <= ls.len(),
            views(ls@) == lines_of(text@),
            forall|j: int| 0 <= j < i ==> !non_monitor_line(#[trigger] views(ls@)[j]),
        decreases ls.len() - i,
    {
        assert(views(ls@)[i as int] == ls@[i as int]@);
        let t = trim_chars(&ls[i]);
        let lower = lower_chars(&ls[i]);
        if t.len() > 0 && !contains_str(&lower, ".monitor") {
            assert(non_monitor_line(views(ls@)[i as int]));
            return true;
        }
        i += 1;
    }
    false
}

/// The first line from `k` on, trimmed, that is not blank and whose
/// lowercase does not name a `.monitor` source.
pub open spec fn first_source_from(ls: Seq<Seq<char>>, k: int) -> Option<Seq<char>>
    decreases ls.len() - k,
{
    if k < 0 || k >= ls.len() {
        None
    } else if trim(ls[k]).len() > 0 && !has_sub(lowercase(trim(ls[k])), ".monitor"@) {
        Some(trim(ls[k]))
    } else {
        first_source_from(ls, k + 1)
    }
}

/// The first real input source line of `pactl list short sources` output,
/// trimmed.
pub fn first_non_monitor_source_line(text: &str) -> (r: Option<String>)
    ensures
        ostr(r) == first_source_from(lines_of(text@), 0),
{
    let tc = chars_of(text);
    let ls = lines(&tc);
    let mut k: usize = 0;
    while k < ls.len()
        invariant
            k <= ls.len(),
            views(ls@) == lines_of(text@),
            first_source_from(views(ls@), k as int) == first_source_from(views(ls@), 0),
        decreases ls.len() - k,
    {
        assert(views(ls@)[k as int] == ls@[k as int]@);
        let t = trim_chars(&ls[k]);
        let lower = lower_chars(&t);
        if t.len() > 0 && !contains_str(&lower, ".monitor") {
            return Some(string_of(&t));
        }
        k += 1;
    }
    None
}

/// The detail of a found input source: the first real source that `pactl`
/// lists, or else the first line of `wpctl` output.
pub open spec fn source_detail_spec(pactl: Option<Seq<char>>, wpctl: Option<Seq<char>>) -> Seq<char> {
    match pactl {
        Some(p) => match first_source_from(lines_of(p), 0) {
            Some(l) => "audio input source detected: "@ + compact(l, DETAIL_SAMPLE_CHARS as int),
            None => probe_detail_spec("audio input source detected"@, wpctl),
        },
        None => probe_detail_spec("audio input source detected"@, wpctl),
    }
}

/// The detail of a found input source.
pub fn audio_source_detail(pactl: Option<&str>, wpctl: Option<&str>) -> (r: String)
    ensures
        r@ == source_detail_spec(ostr_ref(pactl), ostr_ref(wpctl)),
{
    let line = match pactl {
        Some(p) => first_non_monitor_source_line(p),
        None => None,
    };
    match line {
        Some(l) => {
            let lc = chars_of(l.as_str());
            let c = compact_chars(&lc, DETAIL_SAMPLE_CHARS);
            concat2("audio input source detected: ", string_of(&c).as_str())
        },
        None => compact_probe_detail("audio input source detected", wpctl),
    }
}

/// An optional value, or `unreported`.
pub open spec fn or_unreported(v: Option<Seq<char>>) -> Seq<char> {
    match v {
        Some(s) => s,
        None => "unreported"@,
    }
}

fn or_unreported_exec(v: &Option<String>) -> (r: String)
    ensures
        r@ == or_unreported(ostr(*v)),
{
    match v {
        Some(s) => string_from_str(s.as_str()),
        None => string_from_str("unreported"),
    }
}

/// The detail line of the backend voice configuration check.
pub open spec fn voice_config_detail_spec(status: VoiceActivationStatus) -> Seq<char> {
    "wake_mode="@ + status.wake_mode@ + " wake_phrase=`"@ + status.wake_phrase@ + "` STT="@
        + or_unreported(ostr(status.stt_provider)) + " TTS="@ + or_unreported(ostr(status.tts_provider))
        + " record_key="@ + or_unreported(ostr(status.record_key)) + "; "@ + join(
        string_views(status.notes@),
        "; "@,
    )
}

/// The detail line of the backend voice configuration check: wake mode and
/// phrase, providers, record key, then the activation notes.
pub fn voice_config_detail(status: &VoiceActivationStatus) -> (r: String)
    ensures
        r@ == voice_config_detail_spec(*status),
{
    let stt = or_unreported_exec(&status.stt_provider);
    let tts = or_unreported_exec(&status.tts_provider);
    let key = or_unreported_exec(&status.record_key);
    let mut out = string_from_str("wake_mode=");
    push_str(&mut out, status.wake_mode.as_str());
    push_str(&mut out, " wake_phrase=`");
    push_str(&mut out, status.wake_phrase.as_str());
    push_str(&mut out, "` STT=");
    push_str(&mut out, stt.as_str());
    push_str(&mut out, " TTS=");
    push_str(&mut out, tts.as_str());
    push_str(&mut out, " record_key=");
    push_str(&mut out, key.as_str());
    push_str(&mut out, "; ");
    let notes = join_strings(&status.notes, "; ");
    push_str(&mut out, notes.as_str());
    out
}

/// The view of a check: its name, whether it passed, and its detail.
pub open spec fn check_view(c: DoctorCheck) -> (Seq<char>, bool, Seq<char>) {
    (c.name@, c.ok, c.detail@)
}

/// The views of a list of checks.
pub open spec fn checks_view(v: Seq<DoctorCheck>) -> Seq<(Seq<char>, bool, Seq<char>)> {
    v.map_values(|c: DoctorCheck| check_view(c))
}

fn check(name: &str, ok: bool, detail: String) -> (r: DoctorCheck)
    ensures
        check_view(r) == (name@, ok, detail@),
{
    DoctorCheck { name: string_from_str(name), ok, detail }
}

/// Avu does not capture microphone audio itself.
pub fn native_microphone_check() -> (r: DoctorCheck)
    ensures
        check_view(r) == ("avu_native_microphone_capture"@, false,
            "Avu does not capture microphone audio directly yet; use Ctrl+B to hand off to Hermes voice/TUI, or type in Chat mode"@),
{
    check(
        "avu_native_microphone_capture",
        false,
        string_from_str(
            "Avu does not capture microphone audio directly yet; use Ctrl+B to hand off to Hermes voice/TUI, or type in Chat mode",
        ),
    )
}

/// The backend's voice configuration: it matters only for Hermes, where
/// backend voice must be available.
pub fn backend_voice_config_check(backend_label: &str, activation: &VoiceActivationStatus) -> (r:
    DoctorCheck)
    ensures
        check_view(r) == ("backend_voice_config"@, backend_label@ != "hermes"@
            || activation.backend_voice_available, voice_config_detail_spec(*activation)),
{
    let lc = chars_of(backend_label);
    let ok = !eq_str(&lc, "hermes") || activation.backend_voice_available;
    check("backend_voice_config", ok, voice_config_detail(activation))
}

/// The audio players that spoken output can use, in order of preference.
pub fn audio_player_names() -> (r: Vec<String>)
    ensures
        string_views(r@) == seq!["ffplay"@, "mpv"@, "paplay"@, "aplay"@, "xdg-open"@],
{
    let mut r: Vec<String> = Vec::new();
    r.push(string_from_str("ffplay"));
    r.push(string_from_str("mpv"));
    r.push(string_from_str("paplay"));
    r.push(string_from_str("aplay"));
    r.push(string_from_str("xdg-open"));
    assert(string_views(r@) =~= seq!["ffplay"@, "mpv"@, "paplay"@, "aplay"@, "xdg-open"@]);
    r
}

/// The audio player check, from the players found on PATH.
pub fn audio_player_check(found: &Vec<String>) -> (r: DoctorCheck)
    ensures
        check_view(r) == ("audio_output_player"@, found.len() > 0, if found.len() == 0 {
            "no supported audio player found; install ffplay, mpv, paplay, or aplay for spoken output"@
        } else {
            "available players: "@ + join(string_views(found@), ", "@)
        }),
{
    if found.len() == 0 {
        check(
            "audio_output_player",
            false,
            string_from_str(
                "no supported audio player found; install ffplay, mpv, paplay, or aplay for spoken output",
            ),
        )
    } else {
        let j = join_strings(found, ", ");
        check("audio_output_player", true, concat2("available players: ", j.as_str()))
    }
}

/// A `pactl` listing, or else a `wpctl` status, whichever was reported.
pub open spec fn first_reported(a: Option<Seq<char>>, b: Option<Seq<char>>) -> Option<Seq<char>> {
    match a {
        Some(t) => Some(t),
        None => b,
    }
}

/// The audio output sink check on Linux, from `pactl list short sinks` and
/// `wpctl status`; other platforms skip it.
pub fn audio_sink_check(is_linux: bool, pactl: Option<&str>, wpctl: Option<&str>) -> (r: DoctorCheck)
    ensures
        !is_linux ==> check_view(r) == ("audio_output_sink"@, true,
            "non-Linux platform; sink probing skipped"@),
        is_linux ==> check_view(r) == ("audio_output_sink"@, session_sink_spec(ostr_ref(pactl), ostr_ref(wpctl)),
            if session_sink_spec(ostr_ref(pactl), ostr_ref(wpctl)) {
                probe_detail_spec("audio sink detected"@, first_reported(ostr_ref(pactl), ostr_ref(wpctl)))
            } else {
                "no PipeWire/PulseAudio sink detected; user may not hear Avu/Hermes speech"@
            }),
{
    if !is_linux {
        return check(
            "audio_output_sink",
            true,
            string_from_str("non-Linux platform; sink probing skipped"),
        );
    }
    let ok = has_session_audio_sink(pactl, wpctl);
    if ok {
        let sample = match pactl {
            Some(p) => Some(p),
            None => wpctl,
        };
        check("audio_output_sink", true, compact_probe_detail("audio sink detected", sample))
    } else {
        check(
            "audio_output_sink",
            false,
            string_from_str(
                "no PipeWire/PulseAudio sink detected; user may not hear Avu/Hermes speech",
            ),
        )
    }
}

/// An input source is present: `pactl` lists one that is not a monitor, or
/// `wpctl` shows a `Sources:` section.
pub open spec fn source_present_spec(pactl: Option<Seq<char>>, wpctl: Option<Seq<char>>) -> bool {
    (pactl is Some && exists|i: int|
        0 <= i < lines_of(pactl->0).len() && non_monitor_line(#[trigger] lines_of(pactl->0)[i])) || (
    wpctl is Some && exists|i: int|
        0 <= i < lines_of(wpctl->0).len() && starts_with(
            trim_start(#[trigger] lines_of(wpctl->0)[i]),
            "Sources:"@,
        ))
}

/// The audio input source check on Linux, from `pactl list short sources`
/// and `wpctl status`; other platforms skip it.
pub fn audio_source_check(is_linux: bool, pactl: Option<&str>, wpctl: Option<&str>) -> (r:
    DoctorCheck)
    ensures
        !is_linux ==> check_view(r) == ("audio_input_source"@, true,
            "non-Linux platform; source probing skipped"@),
        is_linux ==> check_view(r) == ("audio_input_source"@, source_present_spec(ostr_ref(pactl), ostr_ref(wpctl)),
            if source_present_spec(ostr_ref(pactl), ostr_ref(wpctl)) {
                source_detail_spec(ostr_ref(pactl), ostr_ref(wpctl))
            } else {
                "no microphone/source detected; Hermes STT cannot record user speech"@
            }),
{
    if !is_linux {
        return check(
            "audio_input_source",
            true,
            string_from_str("non-Linux platform; source probing skipped"),
        );
    }
    let a = match pactl {
        Some(p) => non_monitor_source_seen(p),
        None => false,
    };
    let b = match wpctl {
        Some(w) => crate::backend::any_line_starts_with(w, "Sources:"),
        None => false,
    };
    assert(a == (ostr_ref(pactl) is Some && exists|i: int|
        0 <= i < lines_of(ostr_ref(pactl)->0).len() && non_monitor_line(
            #[trigger] lines_of(ostr_ref(pactl)->0)[i],
        )));
    assert(b == (ostr_ref(wpctl) is Some && exists|i: int|
        0 <= i < lines_of(ostr_ref(wpctl)->0).len() && starts_with(
            trim_start(#[trigger] lines_of(ostr_ref(wpctl)->0)[i]),
            "Sources:"@,
        )));
    if a || b {
        check("audio_input_source", true, audio_source_detail(pactl, wpctl))
    } else {
        check(
            "audio_input_source",
            false,
            string_from_str("no microphone/source detected; Hermes STT cannot record user speech"),
        )
    }
}

/// The Hermes TUI probes are run only against a reachable Hermes backend
/// whose command is on PATH.
pub fn tui_probe_wanted(backend_label: &str, backend_reachable: bool, hermes_found: bool) -> (r:
    bool)
    ensures
        r == (backend_label@ == "hermes"@ && backend_reachable && hermes_found),
{
    let lc = chars_of(backend_label);
    eq_str(&lc, "hermes") && backend_reachable && hermes_found
}

/// The Hermes TUI voice handoff check, from the output of the launch probe
/// (`None` where it could not run).
pub fn hermes_tui_handoff_check(
    backend_label: &str,
    backend_reachable: bool,
    hermes_found: bool,
    probe: Option<&str>,
) -> (r: DoctorCheck)
    ensures
        r.name@ == "hermes_tui_voice_handoff"@,
        backend_label@ != "hermes"@ ==> r.ok && r.detail@
            == "not using Hermes backend; handoff check skipped"@,
        backend_label@ == "hermes"@ && !(backend_reachable && hermes_found) ==> !r.ok && r.detail@
            == "Hermes is not reachable; Ctrl+B voice handoff cannot start"@,
        backend_label@ == "hermes"@ && backend_reachable && hermes_found ==> match probe {
            None => !r.ok && r.detail@
                == "could not run `timeout 6 hermes --continue --tui`; install coreutils timeout or test Hermes TUI manually"@,
            Some(p) => r.ok == probe_spec(p@).0 && r.detail@ == probe_spec(p@).1,
        },
{
    let lc = chars_of(backend_label);
    if !eq_str(&lc, "hermes") {
        return check(
            "hermes_tui_voice_handoff",
            true,
            string_from_str("not using Hermes backend; handoff check skipped"),
        );
    }
    if !backend_reachable || !hermes_found {
        return check(
            "hermes_tui_voice_handoff",
            false,
            string_from_str("Hermes is not reachable; Ctrl+B voice handoff cannot start"),
        );
    }
    match probe {
        None => check(
            "hermes_tui_voice_handoff",
            false,
            string_from_str(
                "could not run `timeout 6 hermes --continue --tui`; install coreutils timeout or test Hermes TUI manually",
            ),
        ),
        Some(p) => {
            let c = classify_hermes_tui_probe(p);
            check("hermes_tui_voice_handoff", c.ok, c.detail)
        },
    }
}

/// The Hermes `/voice on` check, from the output of the pseudo-terminal
/// probe (`None` where it could not run).
pub fn hermes_tui_voice_command_check(
    backend_label: &str,
    backend_reachable: bool,
    hermes_found: bool,
    probe: Option<&str>,
) -> (r: DoctorCheck)
    ensures
        r.name@ == "hermes_tui_voice_command"@,
        backend_label@ != "hermes"@ ==> r.ok && r.detail@
            == "not using Hermes backend; voice command probe skipped"@,
        backend_label@ == "hermes"@ && !(backend_reachable && hermes_found) ==> !r.ok && r.detail@
            == "Hermes is not reachable; `/voice on` cannot be tested"@,
        backend_label@ == "hermes"@ && backend_reachable && hermes_found ==> match probe {
            None => !r.ok && r.detail@
                == "could not run Hermes `/voice on` pseudo-terminal probe; install bash, timeout, and script"@,
            Some(p) => r.ok == probe_spec(p@).0 && r.detail@ == (if probe_spec(p@).0 {
                "Hermes `/voice on` pseudo-terminal probe did not report known startup/build errors"@
            } else {
                probe_spec(p@).1
            }),
        },
{
    let lc = chars_of(backend_label);
    if !eq_str(&lc, "hermes") {
        return check(
            "hermes_tui_voice_command",
            true,
            string_from_str("not using Hermes backend; voice command probe skipped"),
        );
    }
    if !backend_reachable || !hermes_found {
        return check(
            "hermes_tui_voice_command",
            false,
            string_from_str("Hermes is not reachable; `/voice on` cannot be tested"),
        );
    }
    match probe {
        None => check(
            "hermes_tui_voice_command",
            false,
            string_from_str(
                "could not run Hermes `/voice on` pseudo-terminal probe; install bash, timeout, and script",
            ),
        ),
        Some(p) => {
            let c = classify_hermes_tui_probe(p);
            if c.ok {
                check(
                    "hermes_tui_voice_command",
                    true,
                    string_from_str(
                        "Hermes `/voice on` pseudo-terminal probe did not report known startup/build errors",
                    ),
                )
            } else {
                check("hermes_tui_voice_command", false, c.detail)
            }
        },
    }
}

/// `true` or `false`, as `Display` writes a `bool`.
pub open spec fn bool_text(b: bool) -> Seq<char> {
    if b {
        "true"@
    } else {
        "false"@
    }
}

/// How the approval policy stands: the backend owns it, and Avu only shows
/// and routes what the backend reports.
pub open spec fn approval_detail_spec(capability: CapabilitySnapshot) -> Seq<char> {
    if capability.approvals {
        "backend reports approval capability; Avu will only surface and route responses"@
    } else if capability.reachable {
        "backend approval capability is unavailable; Avu disables live approval controls safely"@
    } else {
        "backend unreachable; approval controls disabled safely"@
    }
}

/// The checks that open every doctor report.
pub open spec fn base_checks_spec(
    config_home: Seq<char>,
    adapter_label: Seq<char>,
    capability: CapabilitySnapshot,
) -> Seq<(Seq<char>, bool, Seq<char>)> {
    seq![
        ("avu_config_home"@, true, config_home),
        ("backend_reachable"@, capability.reachable, adapter_label + " reachable="@ + bool_text(
            capability.reachable,
        )),
        ("capability_known"@, true, "capability probe completed"@),
        ("approval_policy_owned_by_backend"@, true, approval_detail_spec(capability)),
        ("wake_fallback"@, true, "keyboard-only fallback available when mic/wake is unavailable"@),
    ]
}

/// The checks that open every doctor report: the config home, whether the
/// backend answers, the capability probe, who owns approvals, and the
/// keyboard fallback.
pub fn base_checks(config_home: &str, adapter_label: &str, capability: &CapabilitySnapshot) -> (r:
    Vec<DoctorCheck>)
    ensures
        checks_view(r@) == base_checks_spec(config_home@, adapter_label@, *capability),
{
    let mut r: Vec<DoctorCheck> = Vec::new();
    r.push(check("avu_config_home", true, string_from_str(config_home)));
    let flag = if capability.reachable {
        "true"
    } else {
        "false"
    };
    r.push(check("backend_reachable", capability.reachable, concat3(adapter_label, " reachable=", flag)));
    r.push(check("capability_known", true, string_from_str("capability probe completed")));
    let approval = if capability.approvals {
        string_from_str(
            "backend reports approval capability; Avu will only surface and route responses",
        )
    } else if capability.reachable {
        string_from_str(
            "backend approval capability is unavailable; Avu disables live approval controls safely",
        )
    } else {
        string_from_str("backend unreachable; approval controls disabled safely")
    };
    r.push(check("approval_policy_owned_by_backend", true, approval));
    r.push(
        check(
            "wake_fallback",
            true,
            string_from_str("keyboard-only fallback available when mic/wake is unavailable"),
        ),
    );
    assert(checks_view(r@) =~= base_checks_spec(config_home@, adapter_label@, *capability));
    r
}

/// Every check passed.
pub open spec fn all_ok(checks: Seq<DoctorCheck>) -> bool {
    forall|i: int| 0 <= i < checks.len() ==> (#[trigger] checks[i]).ok
}

/// The doctor report: the opening checks followed by the voice checks; it
/// is ok exactly when every check passed.
pub fn doctor_report(
    config_home: &str,
    adapter_label: &str,
    capability: CapabilitySnapshot,
    voice_checks: Vec<DoctorCheck>,
) -> (r: DoctorReport)
    ensures
        r.config_home@ == config_home@,
        r.backend_label@ == adapter_label@,
        r.capability == capability,
        checks_view(r.checks@) == base_checks_spec(config_home@, adapter_label@, capability)
            + checks_view(voice_checks@),
        r.ok == all_ok(r.checks@),
{
    let mut checks = base_checks(config_home, adapter_label, &capability);
    let ghost base = checks@;
    let mut i: usize = 0;
    while i < voice_checks.len()
        invariant
            i <= voice_checks.len(),
            checks@ == base + voice_checks@.take(i as int),
        decreases voice_checks.len() - i,
    {
        checks.push(voice_checks[i].clone_check());
        assert(base + voice_checks@.take(i + 1) =~= (base + voice_checks@.take(i as int)).push(
            voice_checks@[i as int],
        ));
        i += 1;
    }
    assert(voice_checks@.take(voice_checks.len() as int) =~= voice_checks@);
    assert(checks_view(checks@) =~= checks_view(base) + checks_view(voice_checks@));
    let mut ok = true;
    let mut j: usize = 0;
    while j < checks.len()
        invariant
            j <= checks.len(),
            ok == forall|k: int| 0 <= k < j ==> (#[trigger] checks@[k]).ok,
        decreases checks.len() - j,
    {
        ok = ok && checks[j].ok;
        j += 1;
    }
    DoctorReport {
        ok,
        config_home: string_from_str(config_home),
        backend_label: string_from_str(adapter_label),
        capability,
        checks,
    }
}

impl DoctorCheck {
    /// A copy of this check.
    pub fn clone_check(&self) -> (r: DoctorCheck)
        ensures
            r == *self,
    {
        DoctorCheck { name: self.name.clone(), ok: self.ok, detail: self.detail.clone() }
    }
}

} // verus!
