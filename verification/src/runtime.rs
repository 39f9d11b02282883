//! What a live backend reports about itself, and the parsing of its status
//! text, configuration and logs.

use vstd::prelude::*;
use crate::domain::{BackendKind, CockpitEvent, EventKind, PermissionPosture, strs};
use crate::backend_events::{
    BackendEventClass, classify_lower, classify_spec, event_kind_for_class, event_kind_spec,
};
use crate::clock::{
    naive_datetime_millis, now_millis, parse_naive_datetime_millis, parse_rfc3339_millis,
    rfc3339_millis,
};
use crate::json::{
    bool_at, doc_contents, json_as_bool, json_as_str, json_bytes_contents, json_contents,
    json_from_slice, json_from_str, json_get, json_pointer, json_text_contents, plain_member_key,
    str_at,
};
use crate::gateway::{
    resolve_hermes_gateway, running_gateway_profile, running_profile_spec, gateway_notes_spec,
    gateway_status_spec, default_profile_spec, lower_status, running_of, ostr,
};
use crate::text::{
    chars_of, concat2, concat3, contains_str, ends_with, eq_ignore_ascii_case,
    eq_ignore_ascii_case_str, eq_str, find_from_exec, find_sub, first_word, first_word_chars,
    has_sub, join, lemma_find_from_some, lines, lines_of, lower_chars, lowercase, push_str,
    slice_chars, split_once, split_once_chars, starts_with, starts_with_str, str_to_uppercase,
    string_from_str, string_of, trim, trim_chars, trim_set, trim_set_chars, trim_set_end,
    trim_set_end_chars, uppercase, views, char_index_at_byte, char_index_at_byte_exec, utf8_len,
    utf8_len_exec, lower_str,
};

verus! {

/// A value that a backend may or may not report.
#[derive(Debug, Clone, PartialEq, Eq)]
pub enum Reported<T> {
    Value(T),
    Unreported,
    Unavailable,
}

/// Everything Avu learned from one look at a live backend.
#[derive(Debug, Clone)]
pub struct RuntimeSnapshot {
    pub backend: BackendKind,
    pub backend_label: String,
    pub reachable: bool,
    pub model_label: Reported<String>,
    pub voice_label: Reported<String>,
    pub cpu_percent: Reported<u8>,
    pub memory_percent: Reported<u8>,
    pub events: Reported<bool>,
    pub approvals: Reported<bool>,
    pub interrupt: Reported<bool>,
    pub pause_resume: Reported<bool>,
    pub sessions_list: Reported<bool>,
    pub transcript: Reported<bool>,
    pub wake_available: Reported<bool>,
    pub permission_posture: PermissionPosture,
    pub log_events: Vec<CockpitEvent>,
    pub notes: Vec<String>,
}


impl RuntimeSnapshot {
    /// The snapshot of a backend whose command is not on PATH: nothing reported,
    /// controls unavailable, observe only.
    pub fn missing(command: &str) -> (r: Self)
        ensures
            r.backend == BackendKind::Missing,
            r.backend_label@ == uppercase(command@),
            !r.reachable,
            r.model_label is Unreported,
            r.voice_label is Unreported,
            r.cpu_percent is Unreported,
            r.memory_percent is Unreported,
            r.events is Unavailable,
            r.approvals is Unavailable,
            r.interrupt is Unavailable,
            r.pause_resume is Unavailable,
            r.sessions_list is Unavailable,
            r.transcript is Unavailable,
            r.wake_available is Unreported,
            r.permission_posture == PermissionPosture::ObserveOnly,
            r.log_events@.len() == 0,
            strs(r.notes@) == seq![command@ + " command was not found on PATH"@],
    {
        let mut notes: Vec<String> = Vec::new();
        notes.push(concat2(command, " command was not found on PATH"));
        let r = RuntimeSnapshot {
            backend: BackendKind::Missing,
            backend_label: str_to_uppercase(command),
            reachable: false,
            model_label: Reported::Unreported,
            voice_label: Reported::Unreported,
            cpu_percent: Reported::Unreported,
            memory_percent: Reported::Unreported,
            events: Reported::Unavailable,
            approvals: Reported::Unavailable,
            interrupt: Reported::Unavailable,
            pause_resume: Reported::Unavailable,
            sessions_list: Reported::Unavailable,
            transcript: Reported::Unavailable,
            wake_available: Reported::Unreported,
            permission_posture: PermissionPosture::ObserveOnly,
            log_events: Vec::new(),
            notes,
        };
        assert(strs(r.notes@) =~= seq![command@ + " command was not found on PATH"@]);
        r
    }
}

/// Keeps only the `limit` most recent events, in their order.
pub fn keep_recent_events(events: &mut Vec<CockpitEvent>, limit: usize)
    ensures
        old(events)@.len() > limit ==> final(events)@ == old(events)@.skip(
            old(events)@.len() - limit,
        ),
        old(events)@.len() <= limit ==> final(events)@ == old(events)@,
{
    if events.len() > limit {
        let drop_count = events.len() - limit;
        let kept = events.split_off(drop_count);
        *events = kept;
        assert(events@ =~= old(events)@.skip(old(events)@.len() - limit));
    }
}


/// The view of a reported string.
pub open spec fn rstr(r: Reported<String>) -> Reported<Seq<char>> {
    match r {
        Reported::Value(s) => Reported::Value(s@),
        Reported::Unreported => Reported::Unreported,
        Reported::Unavailable => Reported::Unavailable,
    }
}

/// The lines of an optional text; an absent text has none.
pub open spec fn opt_lines(t: Option<Seq<char>>) -> Seq<Seq<char>> {
    match t {
        Some(t) => lines_of(t),
        None => Seq::empty(),
    }
}

/// A YAML value with surrounding whitespace and quotes removed, when not empty.
pub open spec fn clean_yaml_spec(v: Seq<char>) -> Option<Seq<char>> {
    let c = trim_set(trim_set(trim(v), seq!['"']), seq!['\'']);
    if c.len() == 0 {
        None
    } else {
        Some(c)
    }
}

/// Blank lines and comments carry nothing.
pub open spec fn yaml_skip(line: Seq<char>) -> bool {
    trim(line).len() == 0 || starts_with(trim(line), "#"@)
}

/// A top-level mapping key line such as `tts:`.
pub open spec fn yaml_header(line: Seq<char>) -> bool {
    !starts_with(line, " "@) && ends_with(trim(line), ":"@)
}

/// The key named by a header or nested-header line.
pub open spec fn yaml_header_name(line: Seq<char>) -> Seq<char> {
    trim_set_end(trim(line), seq![':'])
}

/// The value of a `key: value` line when its key is `key`.
pub open spec fn yaml_key_value(line: Seq<char>, key: Seq<char>) -> Option<Seq<char>> {
    match split_once(trim(line), ':') {
        Some(p) => if trim(p.0) == key {
            Some(p.1)
        } else {
            None
        },
        None => None,
    }
}

/// A line indented by exactly two spaces (at least two, fewer than four).
pub open spec fn indent2(line: Seq<char>) -> bool {
    starts_with(line, "  "@) && !starts_with(line, "    "@)
}

/// The value of `key` under top-level `section`, scanning from line `k`.
pub open spec fn section_scan(
    ls: Seq<Seq<char>>,
    k: int,
    in_sec: bool,
    section: Seq<char>,
    key: Seq<char>,
) -> Option<Seq<char>>
    decreases ls.len() - k,
{
    if k < 0 || k >= ls.len() {
        None
    } else if yaml_skip(ls[k]) {
        section_scan(ls, k + 1, in_sec, section, key)
    } else if yaml_header(ls[k]) {
        section_scan(ls, k + 1, yaml_header_name(ls[k]) == section, section, key)
    } else if in_sec && indent2(ls[k]) && yaml_key_value(ls[k], key) is Some {
        clean_yaml_spec(yaml_key_value(ls[k], key)->0)
    } else {
        section_scan(ls, k + 1, in_sec, section, key)
    }
}

/// `section.key` of a YAML text, read line by line.
pub open spec fn yaml_section_spec(text: Seq<char>, section: Seq<char>, key: Seq<char>) -> Option<
    Seq<char>,
> {
    section_scan(lines_of(text), 0, false, section, key)
}

/// The value of top-level `key`, scanning from line `k`.
pub open spec fn top_scan(ls: Seq<Seq<char>>, k: int, key: Seq<char>) -> Option<Seq<char>>
    decreases ls.len() - k,
{
    if k < 0 || k >= ls.len() {
        None
    } else if starts_with(ls[k], " "@) || yaml_skip(ls[k]) {
        top_scan(ls, k + 1, key)
    } else if yaml_key_value(ls[k], key) is Some {
        clean_yaml_spec(yaml_key_value(ls[k], key)->0)
    } else {
        top_scan(ls, k + 1, key)
    }
}

/// Top-level `key` of a YAML text.
pub open spec fn yaml_top_level_spec(text: Seq<char>, key: Seq<char>) -> Option<Seq<char>> {
    top_scan(lines_of(text), 0, key)
}

/// The value of `section.nested.key`, scanning from line `k`.
pub open spec fn nested_scan(
    ls: Seq<Seq<char>>,
    k: int,
    in_sec: bool,
    in_nested: bool,
    section: Seq<char>,
    nested: Seq<char>,
    key: Seq<char>,
) -> Option<Seq<char>>
    decreases ls.len() - k,
{
    if k < 0 || k >= ls.len() {
        None
    } else if yaml_skip(ls[k]) {
        nested_scan(ls, k + 1, in_sec, in_nested, section, nested, key)
    } else if yaml_header(ls[k]) {
        nested_scan(ls, k + 1, yaml_header_name(ls[k]) == section, false, section, nested, key)
    } else if in_sec && indent2(ls[k]) {
        nested_scan(ls, k + 1, in_sec, yaml_header_name(ls[k]) == nested, section, nested, key)
    } else if in_sec && in_nested && starts_with(ls[k], "    "@) && yaml_key_value(
        ls[k],
        key,
    ) is Some {
        clean_yaml_spec(yaml_key_value(ls[k], key)->0)
    } else {
        nested_scan(ls, k + 1, in_sec, in_nested, section, nested, key)
    }
}

/// `section.nested.key` of a YAML text.
pub open spec fn yaml_nested_spec(
    text: Seq<char>,
    section: Seq<char>,
    nested: Seq<char>,
    key: Seq<char>,
) -> Option<Seq<char>> {
    nested_scan(lines_of(text), 0, false, false, section, nested, key)
}

/// A YAML value with surrounding whitespace and quotes removed, when not empty.
pub fn clean_yaml_value(value: &Vec<char>) -> (r: Option<Vec<char>>)
    ensures
        r matches Some(c) ==> clean_yaml_spec(value@) == Some(c@),
        r is None ==> clean_yaml_spec(value@) is None,
{
    let t = trim_chars(value);
    let dq: Vec<char> = vec!['"'];
    let sq: Vec<char> = vec!['\''];
    assert(dq@ =~= seq!['"']);
    assert(sq@ =~= seq!['\'']);
    let a = trim_set_chars(&t, &dq);
    let c = trim_set_chars(&a, &sq);
    if c.len() == 0 {
        None
    } else {
        Some(c)
    }
}

fn yaml_skip_exec(line: &Vec<char>) -> (r: bool)
    ensures
        r == yaml_skip(line@),
{
    let t = trim_chars(line);
    t.len() == 0 || starts_with_str(&t, "#")
}

fn yaml_header_exec(line: &Vec<char>) -> (r: bool)
    ensures
        r == yaml_header(line@),
{
    let t = trim_chars(line);
    !starts_with_str(line, " ") && crate::text::ends_with_str(&t, ":")
}

fn yaml_header_name_exec(line: &Vec<char>) -> (r: Vec<char>)
    ensures
        r@ == yaml_header_name(line@),
{
    let t = trim_chars(line);
    let colon: Vec<char> = vec![':'];
    assert(colon@ =~= seq![':']);
    trim_set_end_chars(&t, &colon)
}

fn yaml_key_value_exec(line: &Vec<char>, key: &Vec<char>) -> (r: Option<Vec<char>>)
    ensures
        r matches Some(v) ==> yaml_key_value(line@, key@) == Some(v@),
        r is None ==> yaml_key_value(line@, key@) is None,
{
    let t = trim_chars(line);
    match split_once_chars(&t, ':') {
        Some(p) => {
            let c = trim_chars(&p.0);
            if crate::text::eq_chars(&c, key) {
                Some(p.1)
            } else {
                None
            }
        },
        None => None,
    }
}

fn indent2_exec(line: &Vec<char>) -> (r: bool)
    ensures
        r == indent2(line@),
{
    starts_with_str(line, "  ") && !starts_with_str(line, "    ")
}

fn ovec(o: &Option<Vec<char>>) -> (r: Option<String>)
    ensures
        ostr(r) == match o {
            Some(v) => Some(v@),
            None => None::<Seq<char>>,
        },
{
    match o {
        Some(v) => Some(string_of(v)),
        None => None,
    }
}

/// `section.key` of a YAML text.
pub fn yaml_section_value(text: &str, section: &str, key: &str) -> (r: Option<String>)
    ensures
        ostr(r) == yaml_section_spec(text@, section@, key@),
{
    let tc = chars_of(text);
    let sec = chars_of(section);
    let kc = chars_of(key);
    let ls = lines(&tc);
    let mut in_sec = false;
    let mut k: usize = 0;
    while k < ls.len()
        invariant
            k <= ls.len(),
            tc@ == text@,
            sec@ == section@,
            kc@ == key@,
            views(ls@) == lines_of(tc@),
            section_scan(views(ls@), k as int, in_sec, sec@, kc@) == section_scan(
                views(ls@),
                0,
                false,
                sec@,
                kc@,
            ),
        decreases ls.len() - k,
    {
        let line = &ls[k];
        assert(views(ls@)[k as int] == line@);
        if yaml_skip_exec(line) {
        } else if yaml_header_exec(line) {
            let name = yaml_header_name_exec(line);
            in_sec = crate::text::eq_chars(&name, &sec);
        } else if in_sec && indent2_exec(line) {
            match yaml_key_value_exec(line, &kc) {
                Some(v) => {
                    let c = clean_yaml_value(&v);
                    return ovec(&c);
                },
                None => {},
            }
        }
        k += 1;
    }
    None
}

/// Top-level `key` of a YAML text.
pub fn yaml_top_level_value(text: &str, key: &str) -> (r: Option<String>)
    ensures
        ostr(r) == yaml_top_level_spec(text@, key@),
{
    let tc = chars_of(text);
    let kc = chars_of(key);
    let ls = lines(&tc);
    let mut k: usize = 0;
    while k < ls.len()
        invariant
            k <= ls.len(),
            tc@ == text@,
            kc@ == key@,
            views(ls@) == lines_of(tc@),
            top_scan(views(ls@), k as int, kc@) == top_scan(views(ls@), 0, kc@),
        decreases ls.len() - k,
    {
        let line = &ls[k];
        assert(views(ls@)[k as int] == line@);
        if !(starts_with_str(line, " ") || yaml_skip_exec(line)) {
            match yaml_key_value_exec(line, &kc) {
                Some(v) => {
                    let c = clean_yaml_value(&v);
                    return ovec(&c);
                },
                None => {},
            }
        }
        k += 1;
    }
    None
}

/// `section.nested.key` of a YAML text.
pub fn yaml_nested_value(text: &str, section: &str, nested: &str, key: &str) -> (r: Option<String>)
    ensures
        ostr(r) == yaml_nested_spec(text@, section@, nested@, key@),
{
    let tc = chars_of(text);
    let sec = chars_of(section);
    let nc = chars_of(nested);
    let kc = chars_of(key);
    let ls = lines(&tc);
    let mut in_sec = false;
    let mut in_nested = false;
    let mut k: usize = 0;
    while k < ls.len()
        invariant
            k <= ls.len(),
            tc@ == text@,
            sec@ == section@,
            nc@ == nested@,
            kc@ == key@,
            views(ls@) == lines_of(tc@),
            nested_scan(views(ls@), k as int, in_sec, in_nested, sec@, nc@, kc@) == nested_scan(
                views(ls@),
                0,
                false,
                false,
                sec@,
                nc@,
                kc@,
            ),
        decreases ls.len() - k,
    {
        let line = &ls[k];
        assert(views(ls@)[k as int] == line@);
        if yaml_skip_exec(line) {
        } else if yaml_header_exec(line) {
            let name = yaml_header_name_exec(line);
            in_sec = crate::text::eq_chars(&name, &sec);
            in_nested = false;
        } else if in_sec && indent2_exec(line) {
            let name = yaml_header_name_exec(line);
            in_nested = crate::text::eq_chars(&name, &nc);
        } else if in_sec && in_nested && starts_with_str(line, "    ") {
            match yaml_key_value_exec(line, &kc) {
                Some(v) => {
                    let c = clean_yaml_value(&v);
                    return ovec(&c);
                },
                None => {},
            }
        }
        k += 1;
    }
    None
}


/// The value that follows `key` in `input`: its first word, without
/// surrounding `,;)"'`, when not empty.
pub open spec fn value_after_key_spec(input: Seq<char>, key: Seq<char>) -> Option<Seq<char>> {
    match find_sub(input, key) {
        Some(i) => match first_word(input.skip(i + key.len())) {
            Some(w) => {
                let v = trim_set(w, seq![',', ';', ')', '"', '\'']);
                if v.len() == 0 {
                    None
                } else {
                    Some(v)
                }
            },
            None => None,
        },
        None => None,
    }
}

/// The value that follows `key` in `input`.
pub fn value_after_key(input: &str, key: &str) -> (r: Option<String>)
    ensures
        ostr(r) == value_after_key_spec(input@, key@),
{
    let ic = chars_of(input);
    let kc = chars_of(key);
    match find_from_exec(&ic, &kc, 0) {
        Some(i) => {
            proof {
                lemma_find_from_some(ic@, kc@, 0);
            }
            let rest = slice_chars(&ic, i + kc.len(), ic.len());
            assert(rest@ =~= ic@.skip(i + kc@.len()));
            match first_word_chars(&rest) {
                Some(w) => {
                    let set: Vec<char> = vec![',', ';', ')', '"', '\''];
                    assert(set@ =~= seq![',', ';', ')', '"', '\'']);
                    let v = trim_set_chars(&w, &set);
                    if v.len() == 0 {
                        None
                    } else {
                        Some(string_of(&v))
                    }
                },
                None => None,
            }
        },
        None => None,
    }
}

/// The model that the first event naming one (`model=` or `model:`) names.
pub open spec fn model_from_events_spec(labels: Seq<Seq<char>>, k: int) -> Option<Seq<char>>
    decreases labels.len() - k,
{
    if k < 0 || k >= labels.len() {
        None
    } else if value_after_key_spec(labels[k], "model="@) is Some {
        value_after_key_spec(labels[k], "model="@)
    } else if value_after_key_spec(labels[k], "model:"@) is Some {
        value_after_key_spec(labels[k], "model:"@)
    } else {
        model_from_events_spec(labels, k + 1)
    }
}

/// The labels of a list of events.
pub open spec fn labels_of(v: Seq<CockpitEvent>) -> Seq<Seq<char>> {
    v.map_values(|e: CockpitEvent| e.label@)
}

/// The model named by recent log events.
pub fn model_from_log_events(events: &Vec<CockpitEvent>) -> (r: Option<String>)
    ensures
        ostr(r) == model_from_events_spec(labels_of(events@), 0),
{
    let mut k: usize = 0;
    while k < events.len()
        invariant
            k <= events.len(),
            model_from_events_spec(labels_of(events@), k as int) == model_from_events_spec(
                labels_of(events@),
                0,
            ),
        decreases events.len() - k,
    {
        let label = events[k].label.as_str();
        assert(labels_of(events@)[k as int] == label@);
        let a = value_after_key(label, "model=");
        if a.is_some() {
            return a;
        }
        let b = value_after_key(label, "model:");
        if b.is_some() {
            return b;
        }
        k += 1;
    }
    None
}

/// The model named on a `Model: ...` line of a status text, scanning from line `k`.
pub open spec fn status_text_model_scan(ls: Seq<Seq<char>>, k: int) -> Option<Seq<char>>
    decreases ls.len() - k,
{
    if k < 0 || k >= ls.len() {
        None
    } else {
        match split_once(trim(ls[k]), ':') {
            Some(p) => if eq_ignore_ascii_case(trim(p.0), "model"@) && trim(p.1).len() > 0 {
                Some(trim(p.1))
            } else {
                status_text_model_scan(ls, k + 1)
            },
            None => status_text_model_scan(ls, k + 1),
        }
    }
}

/// The model named in an optional status text.
pub open spec fn status_text_model_spec(t: Option<Seq<char>>) -> Option<Seq<char>> {
    match t {
        Some(t) => status_text_model_scan(lines_of(t), 0),
        None => None,
    }
}

/// The model named in a human-readable status text.
pub fn model_from_status_text(status_text: Option<&str>) -> (r: Option<String>)
    ensures
        ostr(r) == match status_text {
            Some(t) => status_text_model_scan(lines_of(t@), 0),
            None => None::<Seq<char>>,
        },
{
    let text = match status_text {
        Some(t) => t,
        None => {
            return None;
        },
    };
    let tc = chars_of(text);
    let ls = lines(&tc);
    let mut k: usize = 0;
    while k < ls.len()
        invariant
            k <= ls.len(),
            status_text == Some(text),
            tc@ == text@,
            views(ls@) == lines_of(tc@),
            status_text_model_scan(views(ls@), k as int) == status_text_model_scan(views(ls@), 0),
        decreases ls.len() - k,
    {
        assert(views(ls@)[k as int] == ls@[k as int]@);
        let t = trim_chars(&ls[k]);
        match split_once_chars(&t, ':') {
            Some(p) => {
                let label = trim_chars(&p.0);
                let value = trim_chars(&p.1);
                if eq_ignore_ascii_case_str(&label, "model") && value.len() > 0 {
                    return Some(string_of(&value));
                }
            },
            None => {},
        }
        k += 1;
    }
    None
}

/// The model label, from the most specific source that reports one: recent
/// log activity, then machine-readable status, then the status text, then the
/// configured model.
pub open spec fn model_choice_spec(
    from_logs: Option<Seq<char>>,
    from_status: Reported<Seq<char>>,
    from_text: Option<Seq<char>>,
    config_model: Option<Seq<char>>,
) -> Reported<Seq<char>> {
    if from_logs is Some {
        Reported::Value(from_logs->0)
    } else if !(from_status is Unreported) {
        from_status
    } else if from_text is Some {
        Reported::Value(from_text->0)
    } else {
        match config_model {
            Some(c) => if trim(c).len() > 0 {
                Reported::Value(trim(c))
            } else {
                Reported::Unreported
            },
            None => Reported::Unreported,
        }
    }
}

/// The model label from the sources a backend offers; `from_status` is what
/// its machine-readable status reported.
pub fn model_from_sources(
    log_events: &Vec<CockpitEvent>,
    from_status: Reported<String>,
    status_text: Option<&str>,
    config_model: Option<&str>,
) -> (r: Reported<String>)
    ensures
        rstr(r) == model_choice_spec(
            model_from_events_spec(labels_of(log_events@), 0),
            rstr(from_status),
            status_text_model_spec(crate::gateway::ostr_ref(status_text)),
            crate::gateway::ostr_ref(config_model),
        ),
{
    match model_from_log_events(log_events) {
        Some(m) => {
            return Reported::Value(m);
        },
        None => {},
    }
    match from_status {
        Reported::Unreported => {},
        other => {
            return other;
        },
    }
    match model_from_status_text(status_text) {
        Some(m) => {
            return Reported::Value(m);
        },
        None => {},
    }
    match config_model {
        Some(c) => {
            let cc = chars_of(c);
            let t = trim_chars(&cc);
            if t.len() > 0 {
                Reported::Value(string_of(&t))
            } else {
                Reported::Unreported
            }
        },
        None => Reported::Unreported,
    }
}

/// The model of a Hermes configuration, scanning from line `k`: the first
/// `model:` line with a value.
pub open spec fn config_model_scan(ls: Seq<Seq<char>>, k: int) -> Option<Seq<char>>
    decreases ls.len() - k,
{
    if k < 0 || k >= ls.len() {
        None
    } else {
        match split_once(trim(ls[k]), ':') {
            Some(p) => {
                let m = trim_set(trim(p.1), seq!['\'', '"']);
                if trim(p.0) == "model"@ && m.len() > 0 {
                    Some(m)
                } else {
                    config_model_scan(ls, k + 1)
                }
            },
            None => config_model_scan(ls, k + 1),
        }
    }
}

/// The model that Hermes is configured with: `HERMES_INFERENCE_MODEL` (given
/// as `env_model`) when set, else the configuration's first `model:` value.
pub open spec fn hermes_config_model_spec(
    config_text: Option<Seq<char>>,
    env_model: Option<Seq<char>>,
) -> Reported<Seq<char>> {
    if env_model is Some && trim(env_model->0).len() > 0 {
        Reported::Value(trim(env_model->0))
    } else {
        match config_text {
            None => Reported::Unreported,
            Some(t) => match config_model_scan(lines_of(t), 0) {
                Some(m) => Reported::Value(m),
                None => Reported::Unreported,
            },
        }
    }
}

/// The model that Hermes is configured with.
pub fn model_from_hermes_config(config_text: Option<&str>, env_model: Option<&str>) -> (r:
    Reported<String>)
    ensures
        rstr(r) == hermes_config_model_spec(
            crate::gateway::ostr_ref(config_text),
            crate::gateway::ostr_ref(env_model),
        ),
{
    match env_model {
        Some(m) => {
            let mc = chars_of(m);
            let t = trim_chars(&mc);
            if t.len() > 0 {
                return Reported::Value(string_of(&t));
            }
        },
        None => {},
    }
    let text = match config_text {
        Some(t) => t,
        None => {
            return Reported::Unreported;
        },
    };
    let tc = chars_of(text);
    let ls = lines(&tc);
    let quotes: Vec<char> = vec!['\'', '"'];
    assert(quotes@ =~= seq!['\'', '"']);
    let mut k: usize = 0;
    while k < ls.len()
        invariant
            k <= ls.len(),
            tc@ == text@,
            quotes@ == seq!['\'', '"'],
            config_text == Some(text),
            !(crate::gateway::ostr_ref(env_model) is Some && trim(
                crate::gateway::ostr_ref(env_model)->0,
            ).len() > 0),
            views(ls@) == lines_of(tc@),
            config_model_scan(views(ls@), k as int) == config_model_scan(views(ls@), 0),
        decreases ls.len() - k,
    {
        assert(views(ls@)[k as int] == ls@[k as int]@);
        let t = trim_chars(&ls[k]);
        match split_once_chars(&t, ':') {
            Some(p) => {
                let label = trim_chars(&p.0);
                let value = trim_chars(&p.1);
                let m = trim_set_chars(&value, &quotes);
                if crate::text::eq_str(&label, "model") && m.len() > 0 {
                    return Reported::Value(string_of(&m));
                }
            },
            None => {},
        }
        k += 1;
    }
    Reported::Unreported
}


/// `opt` or, when absent, `dflt`.
pub open spec fn or_default(opt: Option<Seq<char>>, dflt: Seq<char>) -> Seq<char> {
    match opt {
        Some(v) => v,
        None => dflt,
    }
}

/// The STT part of a voice label: `off/<provider>` when STT is disabled.
pub open spec fn bool_prefix_spec(enabled: Seq<char>, provider: Seq<char>) -> Seq<char> {
    if eq_ignore_ascii_case(enabled, "false"@) {
        "off/"@ + provider
    } else {
        provider
    }
}

/// The STT part of a voice label.
pub fn bool_prefix(enabled: &str, provider: &str) -> (r: String)
    ensures
        r@ == bool_prefix_spec(enabled@, provider@),
{
    let ec = chars_of(enabled);
    if eq_ignore_ascii_case_str(&ec, "false") {
        concat2("off/", provider)
    } else {
        string_from_str(provider)
    }
}

/// The voice label for a Hermes configuration: STT, TTS (with its voice or
/// model), the record key, and whether replies are spoken automatically.
pub open spec fn hermes_voice_spec(text: Seq<char>) -> Seq<char> {
    let stt_enabled = or_default(yaml_section_spec(text, "stt"@, "enabled"@), "true"@);
    let stt_provider = or_default(yaml_section_spec(text, "stt"@, "provider"@), "auto"@);
    let tts_provider = or_default(yaml_section_spec(text, "tts"@, "provider"@), "auto"@);
    let tts_voice = match yaml_nested_spec(text, "tts"@, tts_provider, "voice"@) {
        Some(v) => Some(v),
        None => yaml_nested_spec(text, "tts"@, tts_provider, "voice_id"@),
    };
    let tts_model = match yaml_nested_spec(text, "tts"@, tts_provider, "model"@) {
        Some(v) => Some(v),
        None => yaml_nested_spec(text, "tts"@, tts_provider, "model_id"@),
    };
    let record_key = or_default(yaml_section_spec(text, "voice"@, "record_key"@), "ctrl+b"@);
    let auto_tts = or_default(yaml_section_spec(text, "voice"@, "auto_tts"@), "false"@);
    let tts = "TTS "@ + tts_provider + match tts_voice {
        Some(v) => "/"@ + v,
        None => match tts_model {
            Some(m) => "/"@ + m,
            None => Seq::empty(),
        },
    };
    let parts = seq!["STT "@ + bool_prefix_spec(stt_enabled, stt_provider), tts, "key "@ + record_key];
    join(
        if eq_ignore_ascii_case(auto_tts, "true"@) {
            parts.push("auto-tts"@)
        } else {
            parts
        },
        " · "@,
    )
}

fn value_or(o: Option<String>, dflt: &str) -> (r: String)
    ensures
        r@ == or_default(ostr(o), dflt@),
{
    match o {
        Some(v) => v,
        None => string_from_str(dflt),
    }
}

/// The voice label for a Hermes configuration, when there is one.
pub fn voice_from_hermes_config(config_text: Option<&str>) -> (r: Reported<String>)
    ensures
        config_text is None ==> r is Unreported,
        config_text matches Some(t) ==> rstr(r) == Reported::Value(hermes_voice_spec(t@)),
{
    let text = match config_text {
        Some(t) => t,
        None => {
            return Reported::Unreported;
        },
    };
    let stt_enabled = value_or(yaml_section_value(text, "stt", "enabled"), "true");
    let stt_provider = value_or(yaml_section_value(text, "stt", "provider"), "auto");
    let tts_provider = value_or(yaml_section_value(text, "tts", "provider"), "auto");
    let tts_voice = match yaml_nested_value(text, "tts", tts_provider.as_str(), "voice") {
        Some(v) => Some(v),
        None => yaml_nested_value(text, "tts", tts_provider.as_str(), "voice_id"),
    };
    let tts_model = match yaml_nested_value(text, "tts", tts_provider.as_str(), "model") {
        Some(v) => Some(v),
        None => yaml_nested_value(text, "tts", tts_provider.as_str(), "model_id"),
    };
    let record_key = value_or(yaml_section_value(text, "voice", "record_key"), "ctrl+b");
    let auto_tts = value_or(yaml_section_value(text, "voice", "auto_tts"), "false");
    let p1 = concat2("STT ", bool_prefix(stt_enabled.as_str(), stt_provider.as_str()).as_str());
    let mut tts = concat2("TTS ", tts_provider.as_str());
    match &tts_voice {
        Some(v) => {
            push_str(&mut tts, "/");
            push_str(&mut tts, v.as_str());
        },
        None => match &tts_model {
            Some(m) => {
                push_str(&mut tts, "/");
                push_str(&mut tts, m.as_str());
            },
            None => {},
        },
    }
    let ghost tts_spec = "TTS "@ + tts_provider@ + match ostr(tts_voice) {
        Some(v) => "/"@ + v,
        None => match ostr(tts_model) {
            Some(m) => "/"@ + m,
            None => Seq::<char>::empty(),
        },
    };
    assert(tts@ =~= tts_spec);
    let p3 = concat2("key ", record_key.as_str());
    let mut out = p1.clone();
    push_str(&mut out, " · ");
    push_str(&mut out, tts.as_str());
    push_str(&mut out, " · ");
    push_str(&mut out, p3.as_str());
    let ac = chars_of(auto_tts.as_str());
    let auto = eq_ignore_ascii_case_str(&ac, "true");
    if auto {
        push_str(&mut out, " · ");
        push_str(&mut out, "auto-tts");
    }
    proof {
        let parts = seq![p1@, tts@, p3@];
        assert(parts.drop_last().drop_last() =~= seq![p1@]);
        assert(parts.drop_last() =~= seq![p1@, tts@]);
        assert(join(seq![p1@], " · "@) == p1@);
        assert(join(parts.drop_last(), " · "@) == p1@ + " · "@ + tts@);
        assert(join(parts, " · "@) == p1@ + " · "@ + tts@ + " · "@ + p3@);
        if auto {
            assert(parts.push("auto-tts"@).drop_last() =~= parts);
            assert(out@ =~= join(parts.push("auto-tts"@), " · "@));
        } else {
            assert(out@ =~= join(parts, " · "@));
        }
    }
    Reported::Value(out)
}

/// The profile that Hermes treats as default: `HERMES_PROFILE` (given as
/// `env_profile`) when set, else what the configuration names.
pub open spec fn default_profile_from_spec(
    config_text: Option<Seq<char>>,
    env_profile: Option<Seq<char>>,
) -> Option<Seq<char>> {
    if env_profile is Some && trim(env_profile->0).len() > 0 {
        Some(trim(env_profile->0))
    } else {
        match config_text {
            None => None,
            Some(t) => if yaml_section_spec(t, "profile"@, "default"@) is Some {
                yaml_section_spec(t, "profile"@, "default"@)
            } else if yaml_section_spec(t, "profiles"@, "default"@) is Some {
                yaml_section_spec(t, "profiles"@, "default"@)
            } else if yaml_top_level_spec(t, "profile"@) is Some {
                yaml_top_level_spec(t, "profile"@)
            } else {
                yaml_top_level_spec(t, "default_profile"@)
            },
        }
    }
}

/// The profile that Hermes treats as default.
pub fn hermes_default_profile(config_text: Option<&str>, env_profile: Option<&str>) -> (r: Option<
    String,
>)
    ensures
        ostr(r) == default_profile_from_spec(
            crate::gateway::ostr_ref(config_text),
            crate::gateway::ostr_ref(env_profile),
        ),
{
    match env_profile {
        Some(p) => {
            let pc = chars_of(p);
            let t = trim_chars(&pc);
            if t.len() > 0 {
                return Some(string_of(&t));
            }
        },
        None => {},
    }
    let text = match config_text {
        Some(t) => t,
        None => {
            return None;
        },
    };
    let a = yaml_section_value(text, "profile", "default");
    if a.is_some() {
        return a;
    }
    let b = yaml_section_value(text, "profiles", "default");
    if b.is_some() {
        return b;
    }
    let c = yaml_top_level_value(text, "profile");
    if c.is_some() {
        return c;
    }
    yaml_top_level_value(text, "default_profile")
}

/// The first trimmed line, from line `k` on, that reports the Telegram token conflict.
pub open spec fn conflict_line_scan(ls: Seq<Seq<char>>, k: int) -> Option<Seq<char>>
    decreases ls.len() - k,
{
    if k < 0 || k >= ls.len() {
        None
    } else if has_sub(lowercase(trim(ls[k])), "telegram bot token already in use"@) {
        Some(trim(ls[k]))
    } else {
        conflict_line_scan(ls, k + 1)
    }
}

/// The notes that Hermes' gateway status adds to a snapshot: the resolution's
/// notes, then what the text shows of a token conflict or of the service.
pub open spec fn gateway_extra_notes_spec(text: Seq<char>) -> Seq<Seq<char>> {
    let lower = lowercase(text);
    let auto_restarting = has_sub(lower, "activating (auto-restart)"@) || has_sub(
        lower,
        "restart pending"@,
    ) || has_sub(lower, "auto-restart"@);
    let stopped = has_sub(lower, "user gateway service is stopped"@) || has_sub(
        lower,
        "active: inactive (dead)"@,
    );
    let running = running_profile_spec(text);
    if has_sub(lower, "telegram bot token already in use"@) {
        let conflict = or_default(
            conflict_line_scan(lines_of(text), 0),
            "telegram bot token already in use"@,
        );
        seq![
            if auto_restarting {
                "Hermes gateway conflict: "@ + conflict
            } else {
                "Hermes gateway last startup issue: "@ + conflict
            },
            match running {
                Some(p) => "Hermes gateway active profile: `"@ + p
                    + "` is running; use `hermes --profile "@ + p
                    + " gateway restart` to restart it, or keep default stopped unless default should own the Telegram token"@,
                None => "Hermes gateway repair: stop the process named in `hermes gateway status`, then run `hermes gateway restart`"@,
            },
        ]
    } else if stopped && running is Some {
        seq![
            "Hermes gateway active profile: `"@ + running->0
                + "` is running; default profile gateway is stopped"@,
        ]
    } else if has_sub(lower, "user gateway service is running"@) {
        seq!["Hermes gateway service is running"@]
    } else if has_sub(lower, "user gateway service is stopped"@) {
        seq![
            "Hermes gateway service is stopped; run `hermes gateway start` if this profile should receive messages"@,
        ]
    } else {
        Seq::empty()
    }
}

/// All notes for Hermes' gateway.
pub open spec fn hermes_gateway_notes_spec(
    gateway_text: Option<Seq<char>>,
    default_profile: Option<Seq<char>>,
) -> Seq<Seq<char>> {
    match gateway_text {
        None => seq![
            "Hermes gateway status unavailable; run `hermes gateway status` to inspect messaging backends"@,
        ],
        Some(t) => gateway_notes_spec(
            gateway_status_spec(
                default_profile_spec(default_profile),
                running_of(Some(t)),
                lower_status(Some(t)),
            ),
            running_of(Some(t)),
        ) + gateway_extra_notes_spec(t),
    }
}

fn conflict_line(text: &Vec<char>) -> (r: Option<Vec<char>>)
    ensures
        r matches Some(l) ==> conflict_line_scan(lines_of(text@), 0) == Some(l@),
        r is None ==> conflict_line_scan(lines_of(text@), 0) is None,
{
    let ls = lines(text);
    let mut k: usize = 0;
    while k < ls.len()
        invariant
            k <= ls.len(),
            views(ls@) == lines_of(text@),
            conflict_line_scan(views(ls@), k as int) == conflict_line_scan(views(ls@), 0),
        decreases ls.len() - k,
    {
        assert(views(ls@)[k as int] == ls@[k as int]@);
        let t = trim_chars(&ls[k]);
        let l = lower_chars(&t);
        if contains_str(&l, "telegram bot token already in use") {
            return Some(t);
        }
        k += 1;
    }
    None
}

/// Notes on Hermes' gateway for a status text.
pub fn hermes_gateway_notes(gateway_text: Option<&str>, default_profile: Option<&str>) -> (r: Vec<
    String,
>)
    ensures
        strs(r@) == hermes_gateway_notes_spec(
            crate::gateway::ostr_ref(gateway_text),
            crate::gateway::ostr_ref(default_profile),
        ),
{
    let text = match gateway_text {
        Some(t) => t,
        None => {
            let mut v: Vec<String> = Vec::new();
            v.push(
                string_from_str(
                    "Hermes gateway status unavailable; run `hermes gateway status` to inspect messaging backends",
                ),
            );
            assert(strs(v@) =~= seq![
                "Hermes gateway status unavailable; run `hermes gateway status` to inspect messaging backends"@,
            ]);
            return v;
        },
    };
    let resolution = resolve_hermes_gateway(default_profile, Some(text));
    let tc = chars_of(text);
    let lower = lower_chars(&tc);
    let mut notes = resolution.notes;
    let ghost base = strs(notes@);
    let auto_restarting = contains_str(&lower, "activating (auto-restart)") || contains_str(
        &lower,
        "restart pending",
    ) || contains_str(&lower, "auto-restart");
    let stopped = contains_str(&lower, "user gateway service is stopped") || contains_str(
        &lower,
        "active: inactive (dead)",
    );
    let running_profile = running_gateway_profile(text);
    let mut extra: Vec<String> = Vec::new();
    if contains_str(&lower, "telegram bot token already in use") {
        let conflict = match conflict_line(&tc) {
            Some(l) => string_of(&l),
            None => string_from_str("telegram bot token already in use"),
        };
        if auto_restarting {
            extra.push(concat2("Hermes gateway conflict: ", conflict.as_str()));
        } else {
            extra.push(concat2("Hermes gateway last startup issue: ", conflict.as_str()));
        }
        match &running_profile {
            Some(profile) => {
                let mut n = concat3("Hermes gateway active profile: `", profile.as_str(), "` is running; use `hermes --profile ");
                push_str(&mut n, profile.as_str());
                push_str(
                    &mut n,
                    " gateway restart` to restart it, or keep default stopped unless default should own the Telegram token",
                );
                extra.push(n);
            },
            None => {
                extra.push(
                    string_from_str(
                        "Hermes gateway repair: stop the process named in `hermes gateway status`, then run `hermes gateway restart`",
                    ),
                );
            },
        }
    } else if stopped && running_profile.is_some() {
        let profile = running_profile.unwrap();
        extra.push(
            concat3(
                "Hermes gateway active profile: `",
                profile.as_str(),
                "` is running; default profile gateway is stopped",
            ),
        );
    } else if contains_str(&lower, "user gateway service is running") {
        extra.push(string_from_str("Hermes gateway service is running"));
    } else if contains_str(&lower, "user gateway service is stopped") {
        extra.push(
            string_from_str(
                "Hermes gateway service is stopped; run `hermes gateway start` if this profile should receive messages",
            ),
        );
    }
    assert(strs(extra@) =~= gateway_extra_notes_spec(text@));
    let ghost e = strs(extra@);
    let mut i: usize = 0;
    while i < extra.len()
        invariant
            i <= extra.len(),
            strs(extra@) == e,
            strs(notes@) == base + e.take(i as int),
        decreases extra.len() - i,
    {
        let n = extra[i].clone();
        let ghost before = notes@;
        notes.push(n);
        assert(strs(notes@) =~= strs(before).push(extra@[i as int]@));
        assert(e.take(i + 1) =~= e.take(i as int).push(e[i as int]));
        i += 1;
    }
    assert(e.take(e.len() as int) =~= e);
    notes
}


/// A Hermes log line with its leading timestamp: more than 24 bytes, with a
/// space as its eleventh byte.
pub open spec fn hermes_header_ok(t: Seq<char>) -> bool {
    &&& utf8_len(t) > 24
    &&& char_index_at_byte(t, 10) is Some
    &&& char_index_at_byte(t, 10)->0 < t.len()
    &&& t[char_index_at_byte(t, 10)->0] == ' '
}

/// Where the message of a Hermes log line starts: after the first `]`, or
/// after the twentieth byte when there is none.
pub open spec fn hermes_rest_start(t: Seq<char>) -> Option<int> {
    match find_sub(t, seq![']']) {
        Some(p) => Some(p + 1),
        None => char_index_at_byte(t, 20),
    }
}

/// Reading a Hermes log line never cuts a character in two: where the line
/// has its timestamp header, its first 19 bytes and the start of its message
/// fall on character boundaries.
pub open spec fn hermes_line_sliceable(line: Seq<char>) -> bool {
    let t = trim(line);
    t.len() > 0 && hermes_header_ok(t) ==> char_index_at_byte(t, 19) is Some && hermes_rest_start(
        t,
    ) is Some
}

/// The kind of a Hermes log message that the backend-event classifier leaves
/// unclassified, judged on its lowercase text.
pub open spec fn hermes_fallback_kind(l: Seq<char>) -> Option<EventKind> {
    if has_sub(l, "voice recording"@) || has_sub(l, "recording started"@) || has_sub(
        l,
        "listening"@,
    ) || has_sub(l, "awaiting audio"@) {
        Some(EventKind::Listening)
    } else if has_sub(l, "transcrib"@) || has_sub(l, "stt"@) || has_sub(l, "speech-to-text"@) {
        Some(EventKind::Processing)
    } else if has_sub(l, "text-to-speech"@) || has_sub(l, "tts"@) || has_sub(l, "speaking"@)
        || has_sub(l, "audio playback"@) {
        Some(EventKind::Speaking)
    } else if has_sub(l, "tool"@) && (has_sub(l, "dispatch"@) || has_sub(l, "start"@) || has_sub(
        l,
        "call"@,
    )) {
        Some(EventKind::ToolStart)
    } else if has_sub(l, "tool"@) && (has_sub(l, "result"@) || has_sub(l, "finish"@) || has_sub(
        l,
        "complete"@,
    )) {
        Some(EventKind::ToolFinish)
    } else if has_sub(l, "approval"@) || has_sub(l, "approve"@) {
        Some(EventKind::ApprovalRequested)
    } else if has_sub(l, "tool loop warning"@) || has_sub(l, "repeated_exact_failure_warning"@) {
        Some(EventKind::Warning)
    } else if has_sub(l, "error"@) || has_sub(l, "failed"@) || has_sub(l, "exception"@) {
        Some(EventKind::Error)
    } else if has_sub(l, "warning"@) || has_sub(l, "warn"@) {
        Some(EventKind::Warning)
    } else if has_sub(l, "awaiting"@) {
        Some(EventKind::Listening)
    } else if has_sub(l, "response"@) || has_sub(l, "stream"@) {
        Some(EventKind::ResponseStream)
    } else if has_sub(l, "session"@) || has_sub(l, "processing"@) || has_sub(l, "running"@) {
        Some(EventKind::Processing)
    } else if has_sub(l, "idle"@) {
        Some(EventKind::Idle)
    } else {
        None
    }
}

/// The kind of a Hermes log message.
pub open spec fn hermes_message_kind(rest: Seq<char>) -> Option<EventKind> {
    match classify_spec(lowercase(rest)) {
        Some(c) => Some(event_kind_spec(c)),
        None => hermes_fallback_kind(lowercase(rest)),
    }
}

/// A Hermes log message that the backend-event classifier recognises takes
/// the cockpit kind of its class; one it leaves unclassified is judged by the
/// log's own keywords.
pub proof fn law_hermes_message_kind(rest: Seq<char>)
    ensures
        ({
            let c = classify_spec(lowercase(rest));
            let k = hermes_message_kind(rest);
            &&& c == Some(BackendEventClass::Progress) ==> k == Some(EventKind::Processing)
            &&& c == Some(BackendEventClass::ToolStarted) ==> k == Some(EventKind::ToolStart)
            &&& c == Some(BackendEventClass::ToolFinished) ==> k == Some(EventKind::ToolFinish)
            &&& c == Some(BackendEventClass::PermissionRequested) ==> k == Some(
                EventKind::ApprovalRequested,
            )
            &&& c == Some(BackendEventClass::PermissionResolved) ==> k == Some(
                EventKind::ApprovalRouted,
            )
            &&& c == Some(BackendEventClass::FinalResponse) ==> k == Some(EventKind::ResponseStream)
            &&& c == Some(BackendEventClass::SpeakingStarted) ==> k == Some(EventKind::Speaking)
            &&& c == Some(BackendEventClass::SpeakingEnded) ==> k == Some(EventKind::Listening)
            &&& c == Some(BackendEventClass::Listening) ==> k == Some(EventKind::Listening)
            &&& c == Some(BackendEventClass::Warning) ==> k == Some(EventKind::Warning)
            &&& c == Some(BackendEventClass::Error) ==> k == Some(EventKind::Error)
            &&& c is None ==> k == hermes_fallback_kind(lowercase(rest))
        }),
{
}

/// The event that a Hermes log line records: its kind, its message and its
/// time (the line's timestamp, or `fallback` when that does not parse).
pub open spec fn hermes_line_spec(line: Seq<char>, fallback: int) -> Option<
    (EventKind, Seq<char>, int),
> {
    let t = trim(line);
    if t.len() == 0 || !hermes_header_ok(t) {
        None
    } else {
        let ts = t.take(char_index_at_byte(t, 19)->0);
        let rest = trim(t.skip(hermes_rest_start(t)->0));
        let at = match naive_datetime_millis(ts, "%Y-%m-%d %H:%M:%S"@) {
            Some(ms) => ms,
            None => fallback,
        };
        match hermes_message_kind(rest) {
            Some(k) => Some((k, rest, at)),
            None => None,
        }
    }
}

/// An event as kind, label and time.
pub open spec fn event_full(e: CockpitEvent) -> (EventKind, Seq<char>, int) {
    (e.kind, e.label@, e.at as int)
}

/// A log message that says the agent is listening.
pub open spec fn log_says_listening(l: Seq<char>) -> bool {
    has_sub(l, "voice recording"@) || has_sub(l, "recording started"@) || has_sub(l, "listening"@)
        || has_sub(l, "awaiting audio"@)
}

/// A log message that says speech is being transcribed.
pub open spec fn log_says_transcribing(l: Seq<char>) -> bool {
    has_sub(l, "transcrib"@) || has_sub(l, "stt"@) || has_sub(l, "speech-to-text"@)
}

/// A log message that says speech output is under way.
pub open spec fn log_says_speaking(l: Seq<char>) -> bool {
    has_sub(l, "text-to-speech"@) || has_sub(l, "tts"@) || has_sub(l, "speaking"@)
        || has_sub(l, "audio playback"@)
}

/// A log message that says a tool started.
pub open spec fn log_says_tool_started(l: Seq<char>) -> bool {
    has_sub(l, "tool"@) && (has_sub(l, "dispatch"@) || has_sub(l, "start"@) || has_sub(
        l,
        "call"@,
    ))
}

/// A log message that says a tool finished.
pub open spec fn log_says_tool_finished(l: Seq<char>) -> bool {
    has_sub(l, "tool"@) && (has_sub(l, "result"@) || has_sub(l, "finish"@) || has_sub(
        l,
        "complete"@,
    ))
}

/// A log message about an approval.
pub open spec fn log_says_approval(l: Seq<char>) -> bool {
    has_sub(l, "approval"@) || has_sub(l, "approve"@)
}

/// A log message that warns of a tool loop.
pub open spec fn log_says_loop_warning(l: Seq<char>) -> bool {
    has_sub(l, "tool loop warning"@) || has_sub(l, "repeated_exact_failure_warning"@)
}

/// A log message that names an error.
pub open spec fn log_says_error(l: Seq<char>) -> bool {
    has_sub(l, "error"@) || has_sub(l, "failed"@) || has_sub(l, "exception"@)
}

/// A log message that names a warning.
pub open spec fn log_says_warning(l: Seq<char>) -> bool {
    has_sub(l, "warning"@) || has_sub(l, "warn"@)
}

/// A log message that says the agent is awaiting something.
pub open spec fn log_says_awaiting(l: Seq<char>) -> bool {
    has_sub(l, "awaiting"@)
}

/// A log message about a streamed response.
pub open spec fn log_says_response(l: Seq<char>) -> bool {
    has_sub(l, "response"@) || has_sub(l, "stream"@)
}

/// A log message about session work in progress.
pub open spec fn log_says_work(l: Seq<char>) -> bool {
    has_sub(l, "session"@) || has_sub(l, "processing"@) || has_sub(l, "running"@)
}

/// A log message that says the agent is idle.
pub open spec fn log_says_idle(l: Seq<char>) -> bool {
    has_sub(l, "idle"@)
}

/// A lowercase Hermes log message that the backend-event classifier leaves
/// unclassified gets the kind of the first of these it says, in order of
/// precedence: listening, transcribing, speaking, a started tool, a finished
/// tool, an approval, a tool-loop warning, an error, a warning, awaiting,
/// a streamed response, session work, idle; one that says none of them gives
/// no event.
pub proof fn law_hermes_fallback_precedence(l: Seq<char>)
    ensures
        log_says_listening(l) ==> hermes_fallback_kind(l) == Some(EventKind::Listening),
        ({
            &&& !log_says_listening(l)
            &&& log_says_transcribing(l)
        }) ==> hermes_fallback_kind(l) == Some(EventKind::Processing),
        ({
            &&& !log_says_listening(l)
            &&& !log_says_transcribing(l)
            &&& log_says_speaking(l)
        }) ==> hermes_fallback_kind(l) == Some(EventKind::Speaking),
        ({
            &&& !log_says_listening(l)
            &&& !log_says_transcribing(l)
            &&& !log_says_speaking(l)
            &&& log_says_tool_started(l)
        }) ==> hermes_fallback_kind(l) == Some(EventKind::ToolStart),
        ({
            &&& !log_says_listening(l)
            &&& !log_says_transcribing(l)
            &&& !log_says_speaking(l)
            &&& !log_says_tool_started(l)
            &&& log_says_tool_finished(l)
        }) ==> hermes_fallback_kind(l) == Some(EventKind::ToolFinish),
        ({
            &&& !log_says_listening(l)
            &&& !log_says_transcribing(l)
            &&& !log_says_speaking(l)
            &&& !log_says_tool_started(l)
            &&& !log_says_tool_finished(l)
            &&& log_says_approval(l)
        }) ==> hermes_fallback_kind(l) == Some(EventKind::ApprovalRequested),
        ({
            &&& !log_says_listening(l)
            &&& !log_says_transcribing(l)
            &&& !log_says_speaking(l)
            &&& !log_says_tool_started(l)
            &&& !log_says_tool_finished(l)
            &&& !log_says_approval(l)
            &&& log_says_loop_warning(l)
        }) ==> hermes_fallback_kind(l) == Some(EventKind::Warning),
        ({
            &&& !log_says_listening(l)
            &&& !log_says_transcribing(l)
            &&& !log_says_speaking(l)
            &&& !log_says_tool_started(l)
            &&& !log_says_tool_finished(l)
            &&& !log_says_approval(l)
            &&& !log_says_loop_warning(l)
            &&& log_says_error(l)
        }) ==> hermes_fallback_kind(l) == Some(EventKind::Error),
        ({
            &&& !log_says_listening(l)
            &&& !log_says_transcribing(l)
            &&& !log_says_speaking(l)
            &&& !log_says_tool_started(l)
            &&& !log_says_tool_finished(l)
            &&& !log_says_approval(l)
            &&& !log_says_loop_warning(l)
            &&& !log_says_error(l)
            &&& log_says_warning(l)
        }) ==> hermes_fallback_kind(l) == Some(EventKind::Warning),
        ({
            &&& !log_says_listening(l)
            &&& !log_says_transcribing(l)
            &&& !log_says_speaking(l)
            &&& !log_says_tool_started(l)
            &&& !log_says_tool_finished(l)
            &&& !log_says_approval(l)
            &&& !log_says_loop_warning(l)
            &&& !log_says_error(l)
            &&& !log_says_warning(l)
            &&& log_says_awaiting(l)
        }) ==> hermes_fallback_kind(l) == Some(EventKind::Listening),
        ({
            &&& !log_says_listening(l)
            &&& !log_says_transcribing(l)
            &&& !log_says_speaking(l)
            &&& !log_says_tool_started(l)
            &&& !log_says_tool_finished(l)
            &&& !log_says_approval(l)
            &&& !log_says_loop_warning(l)
            &&& !log_says_error(l)
            &&& !log_says_warning(l)
            &&& !log_says_awaiting(l)
            &&& log_says_response(l)
        }) ==> hermes_fallback_kind(l) == Some(EventKind::ResponseStream),
        ({
            &&& !log_says_listening(l)
            &&& !log_says_transcribing(l)
            &&& !log_says_speaking(l)
            &&& !log_says_tool_started(l)
            &&& !log_says_tool_finished(l)
            &&& !log_says_approval(l)
            &&& !log_says_loop_warning(l)
            &&& !log_says_error(l)
            &&& !log_says_warning(l)
            &&& !log_says_awaiting(l)
            &&& !log_says_response(l)
            &&& log_says_work(l)
        }) ==> hermes_fallback_kind(l) == Some(EventKind::Processing),
        ({
            &&& !log_says_listening(l)
            &&& !log_says_transcribing(l)
            &&& !log_says_speaking(l)
            &&& !log_says_tool_started(l)
            &&& !log_says_tool_finished(l)
            &&& !log_says_approval(l)
            &&& !log_says_loop_warning(l)
            &&& !log_says_error(l)
            &&& !log_says_warning(l)
            &&& !log_says_awaiting(l)
            &&& !log_says_response(l)
            &&& !log_says_work(l)
            &&& log_says_idle(l)
        }) ==> hermes_fallback_kind(l) == Some(EventKind::Idle),
        ({
            &&& !log_says_listening(l)
            &&& !log_says_transcribing(l)
            &&& !log_says_speaking(l)
            &&& !log_says_tool_started(l)
            &&& !log_says_tool_finished(l)
            &&& !log_says_approval(l)
            &&& !log_says_loop_warning(l)
            &&& !log_says_error(l)
            &&& !log_says_warning(l)
            &&& !log_says_awaiting(l)
            &&& !log_says_response(l)
            &&& !log_says_work(l)
            &&& !log_says_idle(l)
        }) ==> hermes_fallback_kind(l) is None,
{
}

fn hermes_fallback_kind_exec(l: &Vec<char>) -> (r: Option<EventKind>)
    ensures
        r == hermes_fallback_kind(l@),
{
    if contains_str(l, "voice recording") || contains_str(l, "recording started") || contains_str(
        l,
        "listening",
    ) || contains_str(l, "awaiting audio") {
        Some(EventKind::Listening)
    } else if contains_str(l, "transcrib") || contains_str(l, "stt") || contains_str(
        l,
        "speech-to-text",
    ) {
        Some(EventKind::Processing)
    } else if contains_str(l, "text-to-speech") || contains_str(l, "tts") || contains_str(
        l,
        "speaking",
    ) || contains_str(l, "audio playback") {
        Some(EventKind::Speaking)
    } else if contains_str(l, "tool") && (contains_str(l, "dispatch") || contains_str(l, "start")
        || contains_str(l, "call")) {
        Some(EventKind::ToolStart)
    } else if contains_str(l, "tool") && (contains_str(l, "result") || contains_str(l, "finish")
        || contains_str(l, "complete")) {
        Some(EventKind::ToolFinish)
    } else if contains_str(l, "approval") || contains_str(l, "approve") {
        Some(EventKind::ApprovalRequested)
    } else if contains_str(l, "tool loop warning") || contains_str(
        l,
        "repeated_exact_failure_warning",
    ) {
        Some(EventKind::Warning)
    } else if contains_str(l, "error") || contains_str(l, "failed") || contains_str(l, "exception") {
        Some(EventKind::Error)
    } else if contains_str(l, "warning") || contains_str(l, "warn") {
        Some(EventKind::Warning)
    } else if contains_str(l, "awaiting") {
        Some(EventKind::Listening)
    } else if contains_str(l, "response") || contains_str(l, "stream") {
        Some(EventKind::ResponseStream)
    } else if contains_str(l, "session") || contains_str(l, "processing") || contains_str(
        l,
        "running",
    ) {
        Some(EventKind::Processing)
    } else if contains_str(l, "idle") {
        Some(EventKind::Idle)
    } else {
        None
    }
}

/// Whether reading a Hermes log line keeps to character boundaries (see
/// `hermes_line_sliceable`).
pub fn hermes_line_is_sliceable(line: &str) -> (r: bool)
    ensures
        r == hermes_line_sliceable(line@),
{
    let lc = chars_of(line);
    let t = trim_chars(&lc);
    if t.len() == 0 {
        return true;
    }
    let blen = utf8_len_exec(&t);
    let header = blen > 24 && match char_index_at_byte_exec(&t, 10) {
        Some(j) => j < t.len() && t[j] == ' ',
        None => false,
    };
    if !header {
        return true;
    }
    if char_index_at_byte_exec(&t, 19).is_none() {
        return false;
    }
    let bracket: Vec<char> = vec![']'];
    assert(bracket@ =~= seq![']']);
    match find_from_exec(&t, &bracket, 0) {
        Some(_) => true,
        None => char_index_at_byte_exec(&t, 20).is_some(),
    }
}

/// Whether every line that a Hermes log text is read by keeps to character
/// boundaries (see `hermes_log_readable`).
pub fn hermes_log_is_readable(text: &str) -> (r: bool)
    ensures
        r == hermes_log_readable(text@),
{
    let tc = chars_of(text);
    let ls = lines(&tc);
    let start: usize = if ls.len() > 30 {
        ls.len() - 30
    } else {
        0
    };
    let ghost w = last_n(lines_of(text@), 30);
    assert(views(ls@).skip(start as int) =~= w);
    let mut i = start;
    while i < ls.len()
        invariant
            start <= i <= ls.len(),
            views(ls@) == lines_of(text@),
            w == views(ls@).skip(start as int),
            w == last_n(lines_of(text@), 30),
            forall|j: int| 0 <= j < i - start ==> hermes_line_sliceable(#[trigger] w[j]),
        decreases ls.len() - i,
    {
        assert(w[i - start] == ls@[i as int]@);
        let line_s = string_of(&ls[i]);
        if !hermes_line_is_sliceable(line_s.as_str()) {
            assert(!hermes_line_sliceable(w[i - start]));
            return false;
        }
        i += 1;
    }
    true
}

/// The event that a Hermes log line records; `fallback` is the time given to
/// a line whose timestamp does not parse.
pub fn parse_hermes_log_line_at(line: &str, fallback: i64) -> (r: Option<CockpitEvent>)
    requires
        hermes_line_sliceable(line@),
    ensures
        r matches Some(e) ==> hermes_line_spec(line@, fallback as int) == Some(event_full(e)),
        r is None ==> hermes_line_spec(line@, fallback as int) is None,
{
    let lc = chars_of(line);
    let t = trim_chars(&lc);
    if t.len() == 0 {
        return None;
    }
    let blen = utf8_len_exec(&t);
    if blen <= 24 {
        return None;
    }
    let j = match char_index_at_byte_exec(&t, 10) {
        Some(j) => j,
        None => {
            return None;
        },
    };
    if j >= t.len() || t[j] != ' ' {
        return None;
    }
    let ts_end = match char_index_at_byte_exec(&t, 19) {
        Some(k) => k,
        None => {
            return None;
        },
    };
    let bracket: Vec<char> = vec![']'];
    assert(bracket@ =~= seq![']']);
    let start = match find_from_exec(&t, &bracket, 0) {
        Some(p) => {
            proof {
                lemma_find_from_some(t@, bracket@, 0);
            }
            p + 1
        },
        None => match char_index_at_byte_exec(&t, 20) {
            Some(k) => k,
            None => {
                return None;
            },
        },
    };
    let ts = slice_chars(&t, 0, ts_end);
    assert(ts@ =~= t@.take(ts_end as int));
    let rest_raw = slice_chars(&t, start, t.len());
    assert(rest_raw@ =~= t@.skip(start as int));
    let rest = trim_chars(&rest_raw);
    let ts_s = string_of(&ts);
    let at = if ts.len() > 0 {
        match parse_naive_datetime_millis(ts_s.as_str(), "%Y-%m-%d %H:%M:%S") {
            Some(ms) => ms,
            None => fallback,
        }
    } else {
        fallback
    };
    proof {
        assert(ts_end > 0) by {
            crate::text::lemma_char_index_prefix(t@, t@.len() as int, 19);
            assert(t@.take(t@.len() as int) =~= t@);
            if ts_end == 0 {
                assert(t@.take(0) =~= Seq::<char>::empty());
            }
        }
    }
    let lower = lower_chars(&rest);
    let kind = match classify_lower(&lower) {
        Some(c) => event_kind_for_class(&c),
        None => match hermes_fallback_kind_exec(&lower) {
            Some(k) => k,
            None => {
                return None;
            },
        },
    };
    Some(CockpitEvent { at, kind, label: string_of(&rest) })
}

/// The event that a Hermes log line records, stamped now when its timestamp
/// does not parse.
pub fn parse_hermes_log_line(line: &str) -> (r: Option<CockpitEvent>)
    requires
        hermes_line_sliceable(line@),
    ensures
        r matches Some(e) ==> exists|now: int|
            hermes_line_spec(line@, now) == Some(event_full(e)),
        r is None ==> forall|now: int| #[trigger] hermes_line_spec(line@, now) is None,
{
    let now = now_millis();
    let r = parse_hermes_log_line_at(line, now);
    proof {
        if r is None {
            assert forall|n: int| #[trigger] hermes_line_spec(line@, n) is None by {
                assert(hermes_line_spec(line@, n) is None == hermes_line_spec(
                    line@,
                    now as int,
                ) is None);
            }
        }
    }
    r
}

/// The `n` last items of `s`.
pub open spec fn last_n<A>(s: Seq<A>, n: int) -> Seq<A> {
    if s.len() > n {
        s.skip(s.len() - n)
    } else {
        s
    }
}

/// The events recorded by the given log lines, in order.
pub open spec fn hermes_events_of(ls: Seq<Seq<char>>, fallback: int) -> Seq<
    (EventKind, Seq<char>, int),
>
    decreases ls.len(),
{
    if ls.len() == 0 {
        Seq::empty()
    } else {
        let prev = hermes_events_of(ls.drop_last(), fallback);
        match hermes_line_spec(ls.last(), fallback) {
            Some(e) => prev.push(e),
            None => prev,
        }
    }
}

/// Events at or after `cutoff`, in order.
pub open spec fn not_before(ev: Seq<(EventKind, Seq<char>, int)>, cutoff: int) -> Seq<
    (EventKind, Seq<char>, int),
>
    decreases ev.len(),
{
    if ev.len() == 0 {
        ev
    } else if ev.last().2 < cutoff {
        not_before(ev.drop_last(), cutoff)
    } else {
        not_before(ev.drop_last(), cutoff).push(ev.last())
    }
}

/// Every line of the last 30 of a log can be read.
pub open spec fn hermes_log_readable(text: Seq<char>) -> bool {
    let w = last_n(lines_of(text), 30);
    forall|i: int| 0 <= i < w.len() ==> hermes_line_sliceable(#[trigger] w[i])
}

/// The recent activity in a Hermes agent log: the events of its last 30
/// lines from the 15 minutes before `now`, at most the 12 latest.
pub open spec fn hermes_log_events_spec(text: Seq<char>, now: int) -> Seq<
    (EventKind, Seq<char>, int),
> {
    last_n(
        not_before(hermes_events_of(last_n(lines_of(text), 30), now), now - 900000),
        12,
    )
}

/// All events as kind, label and time.
pub open spec fn events_full(v: Seq<CockpitEvent>) -> Seq<(EventKind, Seq<char>, int)> {
    v.map_values(|e: CockpitEvent| event_full(e))
}

/// The recent activity in the text of a Hermes agent log, as of `now`.
pub fn hermes_log_events_from_text(text: &str, now: i64) -> (r: Vec<CockpitEvent>)
    requires
        hermes_log_readable(text@),
        now >= i64::MIN + 900000,
    ensures
        events_full(r@) == hermes_log_events_spec(text@, now as int),
{
    let tc = chars_of(text);
    let ls = lines(&tc);
    let start: usize = if ls.len() > 30 {
        ls.len() - 30
    } else {
        0
    };
    let ghost w = last_n(lines_of(text@), 30);
    assert(views(ls@).skip(start as int) =~= w);
    let cutoff = now - 900000;
    let mut events: Vec<CockpitEvent> = Vec::new();
    let mut i = start;
    while i < ls.len()
        invariant
            start <= i <= ls.len(),
            views(ls@) == lines_of(text@),
            w == views(ls@).skip(start as int),
            forall|j: int| 0 <= j < w.len() ==> hermes_line_sliceable(#[trigger] w[j]),
            cutoff == now - 900000,
            events_full(events@) == not_before(
                hermes_events_of(w.take(i - start), now as int),
                cutoff as int,
            ),
        decreases ls.len() - i,
    {
        let ghost pre = w.take(i - start);
        assert(w.take(i - start + 1).drop_last() =~= pre);
        assert(w.take(i - start + 1).last() == ls@[i as int]@);
        assert(w[i - start] == ls@[i as int]@);
        let line_s = string_of(&ls[i]);
        match parse_hermes_log_line_at(line_s.as_str(), now) {
            Some(e) => {
                let ghost ev_pre = hermes_events_of(pre, now as int);
                assert(hermes_events_of(w.take(i - start + 1), now as int) == ev_pre.push(
                    event_full(e),
                ));
                assert(ev_pre.push(event_full(e)).drop_last() =~= ev_pre);
                if e.at >= cutoff {
                    let ghost before = events@;
                    events.push(e);
                    assert(events_full(events@) =~= events_full(before).push(event_full(e)));
                }
            },
            None => {},
        }
        i += 1;
    }
    assert(w.take(ls.len() - start) =~= w);
    keep_recent_events(&mut events, 12);
    proof {
        let ev = not_before(hermes_events_of(w, now as int), cutoff as int);
        assert(events_full(events@) =~= last_n(ev, 12));
    }
    events
}


/// The JSON pointer for a dotted path: `a.b` becomes `/a/b`.
pub open spec fn pointer_spec(path: Seq<char>) -> Seq<char> {
    seq!['/'] + path.map_values(|c: char| if c == '.' { '/' } else { c })
}

/// The JSON pointer for a dotted path.
pub fn pointer_for(path: &str) -> (r: String)
    ensures
        r@ == pointer_spec(path@),
{
    let pc = chars_of(path);
    let mut out: Vec<char> = Vec::new();
    out.push('/');
    let mut i: usize = 0;
    while i < pc.len()
        invariant
            i <= pc.len(),
            out@ == seq!['/'] + pc@.take(i as int).map_values(
                |c: char|
                    if c == '.' {
                        '/'
                    } else {
                        c
                    },
            ),
        decreases pc.len() - i,
    {
        let c = pc[i];
        out.push(
            if c == '.' {
                '/'
            } else {
                c
            },
        );
        i += 1;
        assert(out@ =~= seq!['/'] + pc@.take(i as int).map_values(
            |c: char|
                if c == '.' {
                    '/'
                } else {
                    c
                },
        ));
    }
    assert(pc@.take(pc.len() as int) =~= pc@);
    string_of(&out)
}

/// The views of a list of string slices.
pub open spec fn str_views(v: Seq<&str>) -> Seq<Seq<char>> {
    v.map_values(|p: &str| p@)
}

/// The first boolean that a document holds at one of the dotted paths
/// `ps[i..]`; `Unreported` when none holds one.
pub open spec fn first_bool_from(
    m: Map<Seq<char>, (Option<bool>, Option<Seq<char>>)>,
    ps: Seq<Seq<char>>,
    i: int,
) -> Reported<bool>
    decreases ps.len() - i,
{
    if i < 0 || i >= ps.len() {
        Reported::Unreported
    } else {
        match bool_at(m, pointer_spec(ps[i])) {
            Some(b) => Reported::Value(b),
            None => first_bool_from(m, ps, i + 1),
        }
    }
}

/// The first string that a document holds at one of the dotted paths
/// `ps[i..]`; `Unreported` when none holds one.
pub open spec fn first_str_from(
    m: Map<Seq<char>, (Option<bool>, Option<Seq<char>>)>,
    ps: Seq<Seq<char>>,
    i: int,
) -> Reported<Seq<char>>
    decreases ps.len() - i,
{
    if i < 0 || i >= ps.len() {
        Reported::Unreported
    } else {
        match str_at(m, pointer_spec(ps[i])) {
            Some(s) => Reported::Value(s),
            None => first_str_from(m, ps, i + 1),
        }
    }
}

/// The first boolean at one of the dotted `paths` of a document that may be absent.
pub open spec fn json_bool_spec(
    doc: Option<Map<Seq<char>, (Option<bool>, Option<Seq<char>>)>>,
    paths: Seq<Seq<char>>,
) -> Reported<bool> {
    match doc {
        Some(m) => first_bool_from(m, paths, 0),
        None => Reported::Unreported,
    }
}

/// The first string at one of the dotted `paths` of a document that may be absent.
pub open spec fn json_string_spec(
    doc: Option<Map<Seq<char>, (Option<bool>, Option<Seq<char>>)>>,
    paths: Seq<Seq<char>>,
) -> Reported<Seq<char>> {
    match doc {
        Some(m) => first_str_from(m, paths, 0),
        None => Reported::Unreported,
    }
}

/// The first boolean found at one of the dotted `paths` of a JSON document;
/// `Unreported` when none holds one.
pub fn json_bool(json: &Option<serde_json::Value>, paths: &[&str]) -> (r: Reported<bool>)
    ensures
        r == json_bool_spec(doc_contents(*json), str_views(paths@)),
        !(r is Unavailable),
        json is None ==> r is Unreported,
{
    let doc = match json {
        Some(d) => d,
        None => {
            return Reported::Unreported;
        },
    };
    let ghost m = json_contents(*doc);
    let ghost ps = str_views(paths@);
    let mut i: usize = 0;
    while i < paths.len()
        invariant
            i <= paths.len(),
            *json == Some(*doc),
            m == json_contents(*doc),
            ps == str_views(paths@),
            first_bool_from(m, ps, i as int) == first_bool_from(m, ps, 0),
        decreases paths.len() - i,
    {
        let pointer = pointer_for(paths[i]);
        assert(pointer@ == pointer_spec(ps[i as int]));
        match json_pointer(doc, pointer.as_str()) {
            Some(v) => match json_as_bool(v) {
                Some(b) => {
                    return Reported::Value(b);
                },
                None => {},
            },
            None => {},
        }
        i += 1;
    }
    Reported::Unreported
}

/// The first string found at one of the dotted `paths` of a JSON document;
/// `Unreported` when none holds one.
pub fn json_string(json: &Option<serde_json::Value>, paths: &[&str]) -> (r: Reported<String>)
    ensures
        rstr(r) == json_string_spec(doc_contents(*json), str_views(paths@)),
        !(r is Unavailable),
        json is None ==> r is Unreported,
{
    let doc = match json {
        Some(d) => d,
        None => {
            return Reported::Unreported;
        },
    };
    let ghost m = json_contents(*doc);
    let ghost ps = str_views(paths@);
    let mut i: usize = 0;
    while i < paths.len()
        invariant
            i <= paths.len(),
            *json == Some(*doc),
            m == json_contents(*doc),
            ps == str_views(paths@),
            first_str_from(m, ps, i as int) == first_str_from(m, ps, 0),
        decreases paths.len() - i,
    {
        let pointer = pointer_for(paths[i]);
        assert(pointer@ == pointer_spec(ps[i as int]));
        match json_pointer(doc, pointer.as_str()) {
            Some(v) => match json_as_str(v) {
                Some(s) => {
                    return Reported::Value(string_from_str(s));
                },
                None => {},
            },
            None => {},
        }
        i += 1;
    }
    Reported::Unreported
}

/// The places a status document reports the model at, in the order they are read.
pub open spec fn model_paths_spec() -> Seq<Seq<char>> {
    seq![
        "model.name"@,
        "model.model"@,
        "model.id"@,
        "model"@,
        "models.active.name"@,
        "models.active.model"@,
        "models.default.name"@,
        "models.default.model"@,
        "provider.model"@,
        "routing.model"@,
    ]
}

/// The model a status document reports: the first string at one of the model
/// paths, `Unreported` when there is none or no document.
pub open spec fn status_model_spec(
    status: Option<Map<Seq<char>, (Option<bool>, Option<Seq<char>>)>>,
) -> Reported<Seq<char>> {
    json_string_spec(status, model_paths_spec())
}

/// The model label of a backend: from recent log activity, then the model its
/// machine-readable status reports, then its status text, then its configured model.
pub fn model_from_backend(
    status: &Option<serde_json::Value>,
    status_text: Option<&str>,
    config_model: Option<&str>,
    log_events: &Vec<CockpitEvent>,
) -> (r: Reported<String>)
    ensures
        rstr(r) == model_choice_spec(
            model_from_events_spec(labels_of(log_events@), 0),
            status_model_spec(doc_contents(*status)),
            status_text_model_spec(crate::gateway::ostr_ref(status_text)),
            crate::gateway::ostr_ref(config_model),
        ),
{
    let paths: [&str; 10] = [
        "model.name",
        "model.model",
        "model.id",
        "model",
        "models.active.name",
        "models.active.model",
        "models.default.name",
        "models.default.model",
        "provider.model",
        "routing.model",
    ];
    assert(str_views(paths@) =~= model_paths_spec());
    let from_status = json_string(status, &paths);
    model_from_sources(log_events, from_status, status_text, config_model)
}

proof fn lemma_first_str_reported(
    m: Map<Seq<char>, (Option<bool>, Option<Seq<char>>)>,
    ps: Seq<Seq<char>>,
    i: int,
)
    ensures
        !(first_str_from(m, ps, i) is Unavailable),
    decreases ps.len() - i,
{
    if 0 <= i < ps.len() {
        lemma_first_str_reported(m, ps, i + 1);
    }
}

/// The model label comes from the most specific source that has one: recent
/// log activity first, then the status document's model paths in order, then
/// a `Model:` line of the status text, then the configured model when it is
/// not blank; with none of them it is unreported.
pub proof fn law_model_source_priority(
    labels: Seq<Seq<char>>,
    status: Option<Map<Seq<char>, (Option<bool>, Option<Seq<char>>)>>,
    status_text: Option<Seq<char>>,
    config: Option<Seq<char>>,
)
    ensures
        ({
            let from_logs = model_from_events_spec(labels, 0);
            let from_status = status_model_spec(status);
            let from_text = status_text_model_spec(status_text);
            let r = model_choice_spec(from_logs, from_status, from_text, config);
            &&& from_logs is Some ==> r == Reported::Value(from_logs->0)
            &&& from_logs is None && from_status is Value ==> r == from_status
            &&& from_logs is None && from_status is Unreported && from_text is Some ==> r
                == Reported::Value(from_text->0)
            &&& from_logs is None && from_status is Unreported && from_text is None
                && config is Some && trim(config->0).len() > 0 ==> r == Reported::Value(
                trim(config->0),
            )
            &&& from_logs is None && from_status is Unreported && from_text is None && (config is None
                || trim(config->0).len() == 0) ==> r is Unreported
            &&& !(r is Unavailable)
        }),
{
    if let Some(m) = status {
        lemma_first_str_reported(m, model_paths_spec(), 0);
    }
}

/// The event that an OpenClaw log entry records, from its `type`, `message`
/// and the instant its `timestamp` parses to (`at`).
pub open spec fn openclaw_kind_spec(type_field: Option<Seq<char>>, message: Seq<char>) -> Option<
    EventKind,
> {
    let lm = lowercase(message);
    let lt = lowercase(or_default(type_field, Seq::empty()));
    if has_sub(lt, "session.message"@) && has_sub(lm, "response"@) {
        Some(EventKind::ResponseStream)
    } else if classify_spec(lowercase(lt + " "@ + lm)) is Some {
        Some(event_kind_spec(classify_spec(lowercase(lt + " "@ + lm))->0))
    } else if has_sub(lt, "session.tool"@) && has_sub(lm, "start"@) {
        Some(EventKind::ToolStart)
    } else if has_sub(lt, "session.tool"@) && (has_sub(lm, "finish"@) || has_sub(lm, "complete"@)
        || has_sub(lm, "result"@)) {
        Some(EventKind::ToolFinish)
    } else if has_sub(lt, "session.tool"@) {
        Some(EventKind::ToolStart)
    } else if has_sub(lt, "approval"@) || has_sub(lm, "approval"@) {
        Some(EventKind::ApprovalRequested)
    } else if has_sub(lt, "session"@) {
        Some(EventKind::Processing)
    } else if has_sub(lt, "health"@) || has_sub(lt, "heartbeat"@) {
        Some(EventKind::Idle)
    } else if has_sub(lm, "error"@) || has_sub(lm, "fail"@) {
        Some(EventKind::Error)
    } else if has_sub(lm, "warn"@) {
        Some(EventKind::Warning)
    } else if has_sub(lm, "listen"@) {
        Some(EventKind::Listening)
    } else {
        None
    }
}

/// An OpenClaw log entry's kind, from its lowercased type `lt` and message
/// `lm`, is the first that applies in order of precedence: a session message
/// with a response streams it; a combined line the classifier recognises takes
/// its class's kind; a session tool that starts, finishes, or neither, starts
/// or finishes a tool; an approval in either asks for one; other session types
/// mean processing; health and heartbeats mean idle; then errors, warnings and
/// listening named in the message; otherwise the entry records nothing.
pub proof fn law_openclaw_kind_precedence(type_field: Option<Seq<char>>, message: Seq<char>)
    ensures
        ({
            let lm = lowercase(message);
            let lt = lowercase(or_default(type_field, Seq::empty()));
            let k = openclaw_kind_spec(type_field, message);
            let c = classify_spec(lowercase(lt + " "@ + lm));
            let response = has_sub(lt, "session.message"@) && has_sub(lm, "response"@);
            let tool = has_sub(lt, "session.tool"@);
            let approval = has_sub(lt, "approval"@) || has_sub(lm, "approval"@);
            &&& response ==> k == Some(EventKind::ResponseStream)
            &&& !response && c == Some(BackendEventClass::Progress) ==> k == Some(
                EventKind::Processing,
            )
            &&& !response && c == Some(BackendEventClass::ToolStarted) ==> k == Some(
                EventKind::ToolStart,
            )
            &&& !response && c == Some(BackendEventClass::ToolFinished) ==> k == Some(
                EventKind::ToolFinish,
            )
            &&& !response && c == Some(BackendEventClass::PermissionRequested) ==> k == Some(
                EventKind::ApprovalRequested,
            )
            &&& !response && c == Some(BackendEventClass::PermissionResolved) ==> k == Some(
                EventKind::ApprovalRouted,
            )
            &&& !response && c == Some(BackendEventClass::FinalResponse) ==> k == Some(
                EventKind::ResponseStream,
            )
            &&& !response && c == Some(BackendEventClass::SpeakingStarted) ==> k == Some(
                EventKind::Speaking,
            )
            &&& !response && c == Some(BackendEventClass::SpeakingEnded) ==> k == Some(
                EventKind::Listening,
            )
            &&& !response && c == Some(BackendEventClass::Listening) ==> k == Some(
                EventKind::Listening,
            )
            &&& !response && c == Some(BackendEventClass::Warning) ==> k == Some(
                EventKind::Warning,
            )
            &&& !response && c == Some(BackendEventClass::Error) ==> k == Some(
                EventKind::Error,
            )
            &&& !response && c is None ==> ({
                &&& tool && has_sub(lm, "start"@) ==> k == Some(EventKind::ToolStart)
                &&& tool && !has_sub(lm, "start"@) && (has_sub(lm, "finish"@) || has_sub(
                    lm,
                    "complete"@,
                ) || has_sub(lm, "result"@)) ==> k == Some(EventKind::ToolFinish)
                &&& tool ==> (k == Some(EventKind::ToolStart) || k == Some(EventKind::ToolFinish))
                &&& !tool && approval ==> k == Some(EventKind::ApprovalRequested)
                &&& !tool && !approval && has_sub(lt, "session"@) ==> k == Some(
                    EventKind::Processing,
                )
                &&& !tool && !approval && !has_sub(lt, "session"@) && (has_sub(lt, "health"@)
                    || has_sub(lt, "heartbeat"@)) ==> k == Some(EventKind::Idle)
                &&& !tool && !approval && !has_sub(lt, "session"@) && !has_sub(lt, "health"@)
                    && !has_sub(lt, "heartbeat"@) ==> ({
                    &&& (has_sub(lm, "error"@) || has_sub(lm, "fail"@)) ==> k == Some(
                        EventKind::Error,
                    )
                    &&& !has_sub(lm, "error"@) && !has_sub(lm, "fail"@) && has_sub(lm, "warn"@)
                        ==> k == Some(EventKind::Warning)
                    &&& !has_sub(lm, "error"@) && !has_sub(lm, "fail"@) && !has_sub(lm, "warn"@)
                        && has_sub(lm, "listen"@) ==> k == Some(EventKind::Listening)
                    &&& !has_sub(lm, "error"@) && !has_sub(lm, "fail"@) && !has_sub(lm, "warn"@)
                        && !has_sub(lm, "listen"@) ==> k is None
                })
            })
        }),
{
}

/// The label of an OpenClaw log entry: its message, else its type.
pub open spec fn openclaw_label_spec(type_field: Option<Seq<char>>, message: Seq<char>) -> Seq<
    char,
> {
    if message.len() > 0 {
        message
    } else {
        or_default(type_field, "log event"@)
    }
}

/// The time of an OpenClaw log entry: its RFC 3339 timestamp, else `fallback`.
pub open spec fn openclaw_time_spec(ts: Seq<char>, fallback: int) -> int {
    if ts.len() > 0 && rfc3339_millis(ts) is Some {
        rfc3339_millis(ts)->0
    } else {
        fallback
    }
}

/// The event that an OpenClaw log entry with these fields records.
pub fn openclaw_log_event(type_field: Option<&str>, message: &str, timestamp: &str, fallback: i64) -> (r:
    Option<CockpitEvent>)
    ensures
        r is Some <==> openclaw_kind_spec(crate::gateway::ostr_ref(type_field), message@) is Some,
        r matches Some(e) ==> e.kind == openclaw_kind_spec(
            crate::gateway::ostr_ref(type_field),
            message@,
        )->0 && e.label@ == openclaw_label_spec(crate::gateway::ostr_ref(type_field), message@)
            && e.at as int == openclaw_time_spec(timestamp@, fallback as int),
{
    let tsc = chars_of(timestamp);
    let at = if tsc.len() > 0 {
        match parse_rfc3339_millis(timestamp) {
            Some(ms) => ms,
            None => fallback,
        }
    } else {
        fallback
    };
    let lower_msg = lower_str(message);
    let type_str: &str = match type_field {
        Some(t) => t,
        None => "",
    };
    proof {
        let e: &str = "";
        assert(e@ =~= Seq::<char>::empty()) by {
            reveal_strlit("");
        }
    }
    let lower_type = lower_str(type_str);
    let mut combined = string_of(&lower_type);
    push_str(&mut combined, " ");
    let lm_s = string_of(&lower_msg);
    push_str(&mut combined, lm_s.as_str());
    let combined_lower = lower_str(combined.as_str());
    let kind = if contains_str(&lower_type, "session.message") && contains_str(&lower_msg, "response") {
        EventKind::ResponseStream
    } else if let Some(class) = classify_lower(&combined_lower) {
        event_kind_for_class(&class)
    } else if contains_str(&lower_type, "session.tool") && contains_str(&lower_msg, "start") {
        EventKind::ToolStart
    } else if contains_str(&lower_type, "session.tool") && (contains_str(&lower_msg, "finish")
        || contains_str(&lower_msg, "complete") || contains_str(&lower_msg, "result")) {
        EventKind::ToolFinish
    } else if contains_str(&lower_type, "session.tool") {
        EventKind::ToolStart
    } else if contains_str(&lower_type, "approval") || contains_str(&lower_msg, "approval") {
        EventKind::ApprovalRequested
    } else if contains_str(&lower_type, "session") {
        EventKind::Processing
    } else if contains_str(&lower_type, "health") || contains_str(&lower_type, "heartbeat") {
        EventKind::Idle
    } else if contains_str(&lower_msg, "error") || contains_str(&lower_msg, "fail") {
        EventKind::Error
    } else if contains_str(&lower_msg, "warn") {
        EventKind::Warning
    } else if contains_str(&lower_msg, "listen") {
        EventKind::Listening
    } else {
        return None;
    };
    let mc = chars_of(message);
    let label = if mc.len() > 0 {
        string_from_str(message)
    } else {
        match type_field {
            Some(t) => string_from_str(t),
            None => string_from_str("log event"),
        }
    };
    Some(CockpitEvent { at, kind, label })
}

/// The instant an OpenClaw log timestamp gives, if it is a non-empty RFC 3339 time.
pub open spec fn openclaw_parsed_time(ts: Seq<char>) -> Option<int> {
    if ts.len() > 0 && rfc3339_millis(ts) is Some {
        rfc3339_millis(ts)
    } else {
        None
    }
}

/// The event that an OpenClaw JSON log entry records, from its `type`,
/// `message` and `timestamp` members: its kind, its label and, where the
/// timestamp parses, its time.
pub open spec fn openclaw_doc_spec(m: Map<Seq<char>, (Option<bool>, Option<Seq<char>>)>) -> Option<
    (EventKind, Seq<char>, Option<int>),
> {
    let t = str_at(m, seq!['/'] + "type"@);
    let msg = or_default(str_at(m, seq!['/'] + "message"@), Seq::empty());
    let ts = or_default(str_at(m, seq!['/'] + "timestamp"@), Seq::empty());
    match openclaw_kind_spec(t, msg) {
        Some(k) => Some((k, openclaw_label_spec(t, msg), openclaw_parsed_time(ts))),
        None => None,
    }
}

/// An event agrees with a described one: same kind and label, and the given
/// time where one is given.
pub open spec fn openclaw_agrees(e: CockpitEvent, x: (EventKind, Seq<char>, Option<int>)) -> bool {
    &&& e.kind == x.0
    &&& e.label@ == x.1
    &&& x.2 matches Some(t) ==> e.at as int == t
}

/// A list of events agrees, one for one, with a list of described events.
pub open spec fn openclaw_events_agree(
    v: Seq<CockpitEvent>,
    xs: Seq<(EventKind, Seq<char>, Option<int>)>,
) -> bool {
    &&& v.len() == xs.len()
    &&& forall|i: int| 0 <= i < v.len() ==> openclaw_agrees(#[trigger] v[i], xs[i])
}

/// The event that an OpenClaw JSON log entry records, stamped now when its
/// timestamp does not parse.
pub fn parse_openclaw_log_json(json: &serde_json::Value) -> (r: Option<CockpitEvent>)
    ensures
        r is Some <==> openclaw_doc_spec(json_contents(*json)) is Some,
        r matches Some(e) ==> openclaw_agrees(e, openclaw_doc_spec(json_contents(*json))->0),
{
    let ghost m = json_contents(*json);
    proof {
        reveal_strlit("type");
        reveal_strlit("message");
        reveal_strlit("timestamp");
        reveal_strlit("");
        assert(plain_member_key("type"@)) by {
            assert(!('0' <= "type"@[0] <= '9'));
        }
        assert(plain_member_key("message"@)) by {
            assert(!('0' <= "message"@[0] <= '9'));
        }
        assert(plain_member_key("timestamp"@)) by {
            assert(!('0' <= "timestamp"@[0] <= '9'));
        }
    }
    let type_field: Option<&str> = match json_get(json, "type") {
        Some(v) => json_as_str(v),
        None => None,
    };
    assert(crate::gateway::ostr_ref(type_field) == str_at(m, seq!['/'] + "type"@));
    let message: &str = match json_get(json, "message") {
        Some(v) => match json_as_str(v) {
            Some(s) => s,
            None => "",
        },
        None => "",
    };
    assert(message@ == or_default(str_at(m, seq!['/'] + "message"@), Seq::empty()));
    let timestamp: &str = match json_get(json, "timestamp") {
        Some(v) => match json_as_str(v) {
            Some(s) => s,
            None => "",
        },
        None => "",
    };
    assert(timestamp@ == or_default(str_at(m, seq!['/'] + "timestamp"@), Seq::empty()));
    openclaw_log_event(type_field, message, timestamp, now_millis())
}

/// The event that one line of OpenClaw's JSON-lines log records, if any.
pub open spec fn openclaw_line_spec(line: Seq<char>) -> Option<(EventKind, Seq<char>, Option<int>)> {
    match json_text_contents(line) {
        Some(m) => openclaw_doc_spec(m),
        None => None,
    }
}

/// The events that the given OpenClaw log lines record, in order.
pub open spec fn openclaw_events_of(ls: Seq<Seq<char>>) -> Seq<(EventKind, Seq<char>, Option<int>)>
    decreases ls.len(),
{
    if ls.len() == 0 {
        Seq::empty()
    } else {
        let prev = openclaw_events_of(ls.drop_last());
        match openclaw_line_spec(ls.last()) {
            Some(x) => prev.push(x),
            None => prev,
        }
    }
}

/// The events of OpenClaw's JSON-lines log output, the 12 latest at most.
pub fn openclaw_log_events_from_text(text: &str) -> (r: Vec<CockpitEvent>)
    ensures
        openclaw_events_agree(r@, last_n(openclaw_events_of(lines_of(text@)), 12)),
        r@.len() <= 12,
{
    let tc = chars_of(text);
    let ls = lines(&tc);
    let ghost w = views(ls@);
    let mut events: Vec<CockpitEvent> = Vec::new();
    let mut i: usize = 0;
    while i < ls.len()
        invariant
            i <= ls.len(),
            w == views(ls@),
            w == lines_of(text@),
            openclaw_events_agree(events@, openclaw_events_of(w.take(i as int))),
        decreases ls.len() - i,
    {
        let ghost pre = w.take(i as int);
        let ghost before = events@;
        assert(w.take(i + 1).drop_last() =~= pre);
        assert(w.take(i + 1).last() == ls@[i as int]@);
        let line = string_of(&ls[i]);
        match json_from_str(line.as_str()) {
            Some(doc) => match parse_openclaw_log_json(&doc) {
                Some(e) => {
                    events.push(e);
                    proof {
                        let xs = openclaw_events_of(pre);
                        let x = openclaw_line_spec(ls@[i as int]@)->0;
                        assert(openclaw_events_of(w.take(i + 1)) == xs.push(x));
                        assert(events@ =~= before.push(e));
                        assert forall|j: int| 0 <= j < events@.len() implies openclaw_agrees(
                            #[trigger] events@[j],
                            xs.push(x)[j],
                        ) by {
                            if j < before.len() {
                                assert(events@[j] == before[j]);
                            }
                        }
                    }
                },
                None => {},
            },
            None => {},
        }
        i += 1;
    }
    assert(w.take(ls.len() as int) =~= w);
    let ghost all = events@;
    keep_recent_events(&mut events, 12);
    proof {
        let xs = openclaw_events_of(w);
        if all.len() > 12 {
            let k = all.len() - 12;
            assert forall|j: int| 0 <= j < events@.len() implies openclaw_agrees(
                #[trigger] events@[j],
                last_n(xs, 12)[j],
            ) by {
                assert(events@[j] == all[j + k]);
                assert(last_n(xs, 12)[j] == xs[j + k]);
            }
        }
    }
    events
}

/// The JSON document a status command printed, when it succeeded: the
/// document that its output parses to, `None` where it does not parse.
pub fn command_json_from_output(success: bool, stdout: &[u8]) -> (r: Option<serde_json::Value>)
    ensures
        !success ==> r is None,
        success ==> doc_contents(r) == json_bytes_contents(stdout@),
{
    if !success {
        return None;
    }
    json_from_slice(stdout)
}

/// The trimmed text a status command printed, when it succeeded with output.
pub fn command_text_from_output(success: bool, stdout: &str) -> (r: Option<String>)
    ensures
        !success ==> r is None,
        success && trim(stdout@).len() == 0 ==> r is None,
        success && trim(stdout@).len() > 0 ==> ostr(r) == Some(trim(stdout@)),
{
    if !success {
        return None;
    }
    let c = chars_of(stdout);
    let t = trim_chars(&c);
    if t.len() == 0 {
        None
    } else {
        Some(string_of(&t))
    }
}


/// A capability as a status document reports it: the boolean at its own path,
/// else at its place under `capabilities`.
pub open spec fn capability_spec(
    doc: Option<Map<Seq<char>, (Option<bool>, Option<Seq<char>>)>>,
    primary: Seq<char>,
    nested: Seq<char>,
) -> Reported<bool> {
    json_bool_spec(doc, seq![primary, nested])
}

/// Where a backend's status JSON reports each capability.
pub fn capability_paths(primary: &'static str, nested: &'static str) -> (r: [&'static str; 2])
    ensures
        r@ == seq![primary, nested],
        str_views(r@) == seq![primary@, nested@],
{
    let r = [primary, nested];
    assert(r@ =~= seq![primary, nested]);
    assert(str_views(r@) =~= seq![primary@, nested@]);
    r
}

/// The notes of a Hermes snapshot.
pub open spec fn hermes_notes_spec(
    status_json_present: bool,
    gateway_text: Option<Seq<char>>,
    default_profile: Option<Seq<char>>,
) -> Seq<Seq<char>> {
    seq!["Hermes command detected; events sourced from hermes logs agent"@] + (if status_json_present {
        Seq::<Seq<char>>::empty()
    } else {
        seq![
            "Hermes status JSON unavailable; capability detection is degraded until Hermes exposes machine-readable status"@,
        ]
    }) + hermes_gateway_notes_spec(gateway_text, default_profile)
}

/// What a Hermes backend reports, from the outputs of its status commands,
/// its recent log events, its configuration and `HERMES_PROFILE`.
pub fn hermes_snapshot_from(
    status: Option<serde_json::Value>,
    status_text: Option<&str>,
    gateway_text: Option<&str>,
    configured_model: Option<&str>,
    log_events: Vec<CockpitEvent>,
    config_text: Option<&str>,
    env_profile: Option<&str>,
) -> (r: RuntimeSnapshot)
    ensures
        r.backend == BackendKind::Hermes,
        r.backend_label@ == "HERMES"@,
        r.reachable == (status is Some || status_text is Some),
        rstr(r.model_label) == model_choice_spec(
            model_from_events_spec(labels_of(log_events@), 0),
            status_model_spec(doc_contents(status)),
            status_text_model_spec(crate::gateway::ostr_ref(status_text)),
            crate::gateway::ostr_ref(configured_model),
        ),
        config_text is None ==> r.voice_label is Unreported,
        config_text matches Some(t) ==> rstr(r.voice_label) == Reported::Value(
            hermes_voice_spec(t@),
        ),
        r.cpu_percent is Unreported,
        r.memory_percent is Unreported,
        r.events == capability_spec(doc_contents(status), "events"@, "capabilities.events"@),
        r.approvals == capability_spec(
            doc_contents(status),
            "approvals"@,
            "capabilities.approvals"@,
        ),
        r.interrupt == capability_spec(
            doc_contents(status),
            "interrupt"@,
            "capabilities.interrupt"@,
        ),
        r.pause_resume == capability_spec(
            doc_contents(status),
            "pause_resume"@,
            "capabilities.pause_resume"@,
        ),
        r.sessions_list == capability_spec(
            doc_contents(status),
            "sessions"@,
            "capabilities.sessions_list"@,
        ),
        r.transcript == capability_spec(
            doc_contents(status),
            "transcript"@,
            "capabilities.transcript"@,
        ),
        !(r.events is Unavailable) && !(r.approvals is Unavailable) && !(r.interrupt is Unavailable),
        !(r.pause_resume is Unavailable) && !(r.sessions_list is Unavailable) && !(
        r.transcript is Unavailable),
        status is None ==> r.events is Unreported && r.approvals is Unreported
            && r.interrupt is Unreported && r.pause_resume is Unreported
            && r.sessions_list is Unreported && r.transcript is Unreported,
        r.wake_available is Unreported,
        r.permission_posture == PermissionPosture::ObserveNotify,
        r.log_events@ == log_events@,
        strs(r.notes@) == hermes_notes_spec(
            status is Some,
            crate::gateway::ostr_ref(gateway_text),
            default_profile_from_spec(
                crate::gateway::ostr_ref(config_text),
                crate::gateway::ostr_ref(env_profile),
            ),
        ),
{
    let reachable = status.is_some() || status_text.is_some();
    let mut notes: Vec<String> = Vec::new();
    notes.push(string_from_str("Hermes command detected; events sourced from hermes logs agent"));
    if status.is_none() {
        notes.push(
            string_from_str(
                "Hermes status JSON unavailable; capability detection is degraded until Hermes exposes machine-readable status",
            ),
        );
    }
    let ghost head = strs(notes@);
    let default_profile = hermes_default_profile(config_text, env_profile);
    let dp: Option<&str> = match &default_profile {
        Some(p) => Some(p.as_str()),
        None => None,
    };
    let gnotes = hermes_gateway_notes(gateway_text, dp);
    let ghost g = strs(gnotes@);
    let mut i: usize = 0;
    while i < gnotes.len()
        invariant
            i <= gnotes.len(),
            strs(gnotes@) == g,
            strs(notes@) == head + g.take(i as int),
        decreases gnotes.len() - i,
    {
        let n = gnotes[i].clone();
        let ghost before = notes@;
        notes.push(n);
        assert(strs(notes@) =~= strs(before).push(gnotes@[i as int]@));
        assert(g.take(i + 1) =~= g.take(i as int).push(g[i as int]));
        i += 1;
    }
    assert(g.take(g.len() as int) =~= g);
    assert(strs(notes@) =~= hermes_notes_spec(
        status is Some,
        crate::gateway::ostr_ref(gateway_text),
        default_profile_from_spec(
            crate::gateway::ostr_ref(config_text),
            crate::gateway::ostr_ref(env_profile),
        ),
    ));
    let model_label = model_from_backend(&status, status_text, configured_model, &log_events);
    let voice_label = voice_from_hermes_config(config_text);
    let events = json_bool(&status, &capability_paths("events", "capabilities.events"));
    let approvals = json_bool(&status, &capability_paths("approvals", "capabilities.approvals"));
    let interrupt = json_bool(&status, &capability_paths("interrupt", "capabilities.interrupt"));
    let pause_resume = json_bool(
        &status,
        &capability_paths("pause_resume", "capabilities.pause_resume"),
    );
    let sessions_list = json_bool(&status, &capability_paths("sessions", "capabilities.sessions_list"));
    let transcript = json_bool(&status, &capability_paths("transcript", "capabilities.transcript"));
    RuntimeSnapshot {
        backend: BackendKind::Hermes,
        backend_label: string_from_str("HERMES"),
        reachable,
        model_label,
        voice_label,
        cpu_percent: Reported::Unreported,
        memory_percent: Reported::Unreported,
        events,
        approvals,
        interrupt,
        pause_resume,
        sessions_list,
        transcript,
        wake_available: Reported::Unreported,
        permission_posture: PermissionPosture::ObserveNotify,
        log_events,
        notes,
    }
}

/// A quick look at a Hermes backend found on PATH: its configured model and
/// voice, everything else left for the background refresh.
pub fn hermes_quick_snapshot_from(config_text: Option<&str>, env_model: Option<&str>) -> (r:
    RuntimeSnapshot)
    ensures
        r.backend == BackendKind::Hermes,
        r.backend_label@ == "HERMES"@,
        r.reachable,
        rstr(r.model_label) == hermes_config_model_spec(
            crate::gateway::ostr_ref(config_text),
            crate::gateway::ostr_ref(env_model),
        ),
        config_text is None ==> r.voice_label is Unreported,
        config_text matches Some(t) ==> rstr(r.voice_label) == Reported::Value(
            hermes_voice_spec(t@),
        ),
        r.cpu_percent is Unreported && r.memory_percent is Unreported,
        r.events is Unreported && r.approvals is Unreported && r.interrupt is Unreported,
        r.pause_resume is Unreported && r.sessions_list is Unreported && r.transcript is Unreported,
        r.wake_available is Unreported,
        r.permission_posture == PermissionPosture::ObserveNotify,
        r.log_events@.len() == 0,
        strs(r.notes@) == seq![
            "Hermes command detected; live status refresh is running in the background"@,
        ],
{
    let mut notes: Vec<String> = Vec::new();
    notes.push(
        string_from_str(
            "Hermes command detected; live status refresh is running in the background",
        ),
    );
    let r = RuntimeSnapshot {
        backend: BackendKind::Hermes,
        backend_label: string_from_str("HERMES"),
        reachable: true,
        model_label: model_from_hermes_config(config_text, env_model),
        voice_label: voice_from_hermes_config(config_text),
        cpu_percent: Reported::Unreported,
        memory_percent: Reported::Unreported,
        events: Reported::Unreported,
        approvals: Reported::Unreported,
        interrupt: Reported::Unreported,
        pause_resume: Reported::Unreported,
        sessions_list: Reported::Unreported,
        transcript: Reported::Unreported,
        wake_available: Reported::Unreported,
        permission_posture: PermissionPosture::ObserveNotify,
        log_events: Vec::new(),
        notes,
    };
    assert(strs(r.notes@) =~= seq![
        "Hermes command detected; live status refresh is running in the background"@,
    ]);
    r
}

/// A quick look at an OpenClaw backend found on PATH: everything left for the
/// background refresh.
pub fn openclaw_quick_snapshot_found() -> (r: RuntimeSnapshot)
    ensures
        r.backend == BackendKind::OpenClaw,
        r.backend_label@ == "OPENCLAW"@,
        r.reachable,
        r.model_label is Unreported && r.voice_label is Unreported,
        r.cpu_percent is Unreported && r.memory_percent is Unreported,
        r.events is Unreported && r.approvals is Unreported && r.interrupt is Unreported,
        r.pause_resume is Unreported && r.sessions_list is Unreported && r.transcript is Unreported,
        r.wake_available is Unreported,
        r.permission_posture == PermissionPosture::ObserveNotify,
        r.log_events@.len() == 0,
        strs(r.notes@) == seq![
            "OpenClaw command detected; live status refresh is running in the background"@,
        ],
{
    let mut notes: Vec<String> = Vec::new();
    notes.push(
        string_from_str(
            "OpenClaw command detected; live status refresh is running in the background",
        ),
    );
    let r = RuntimeSnapshot {
        backend: BackendKind::OpenClaw,
        backend_label: string_from_str("OPENCLAW"),
        reachable: true,
        model_label: Reported::Unreported,
        voice_label: Reported::Unreported,
        cpu_percent: Reported::Unreported,
        memory_percent: Reported::Unreported,
        events: Reported::Unreported,
        approvals: Reported::Unreported,
        interrupt: Reported::Unreported,
        pause_resume: Reported::Unreported,
        sessions_list: Reported::Unreported,
        transcript: Reported::Unreported,
        wake_available: Reported::Unreported,
        permission_posture: PermissionPosture::ObserveNotify,
        log_events: Vec::new(),
        notes,
    };
    assert(strs(r.notes@) =~= seq![
        "OpenClaw command detected; live status refresh is running in the background"@,
    ]);
    r
}

/// What an OpenClaw backend reports, from the outputs of its gateway and
/// status commands and its recent log events.
pub fn openclaw_snapshot_from(
    gateway: Option<serde_json::Value>,
    status: Option<serde_json::Value>,
    gateway_text: Option<&str>,
    log_events: Vec<CockpitEvent>,
) -> (r: RuntimeSnapshot)
    ensures
        r.backend == BackendKind::OpenClaw,
        r.backend_label@ == "OPENCLAW"@,
        r.reachable == (gateway is Some || status is Some || gateway_text is Some),
        rstr(r.model_label) == model_choice_spec(
            model_from_events_spec(labels_of(log_events@), 0),
            status_model_spec(doc_contents(status)),
            None,
            None,
        ),
        r.voice_label is Unreported,
        r.cpu_percent is Unreported && r.memory_percent is Unreported,
        r.events == capability_spec(doc_contents(gateway), "events"@, "capabilities.events"@),
        r.approvals == capability_spec(
            doc_contents(gateway),
            "approvals"@,
            "capabilities.approvals"@,
        ),
        r.interrupt == capability_spec(
            doc_contents(gateway),
            "interrupt"@,
            "capabilities.interrupt"@,
        ),
        r.pause_resume == capability_spec(
            doc_contents(gateway),
            "pause_resume"@,
            "capabilities.pause_resume"@,
        ),
        r.sessions_list == capability_spec(
            doc_contents(status),
            "sessions"@,
            "capabilities.sessions_list"@,
        ),
        r.transcript == capability_spec(
            doc_contents(status),
            "transcript"@,
            "capabilities.transcript"@,
        ),
        gateway is None ==> r.events is Unreported && r.approvals is Unreported
            && r.interrupt is Unreported && r.pause_resume is Unreported,
        status is None ==> r.sessions_list is Unreported && r.transcript is Unreported,
        r.wake_available is Unreported,
        r.permission_posture == PermissionPosture::ObserveNotify,
        r.log_events@ == log_events@,
        strs(r.notes@) == seq!["OpenClaw command detected; events sourced from openclaw logs --json"@]
            + if gateway is Some {
            Seq::<Seq<char>>::empty()
        } else {
            seq![
                "OpenClaw gateway status JSON unavailable; run openclaw onboard or openclaw gateway status to finish backend setup"@,
            ]
        },
{
    let reachable = gateway.is_some() || status.is_some() || gateway_text.is_some();
    let mut notes: Vec<String> = Vec::new();
    notes.push(
        string_from_str("OpenClaw command detected; events sourced from openclaw logs --json"),
    );
    if gateway.is_none() {
        notes.push(
            string_from_str(
                "OpenClaw gateway status JSON unavailable; run openclaw onboard or openclaw gateway status to finish backend setup",
            ),
        );
    }
    assert(strs(notes@) =~= seq![
        "OpenClaw command detected; events sourced from openclaw logs --json"@,
    ] + if gateway is Some {
        Seq::<Seq<char>>::empty()
    } else {
        seq![
            "OpenClaw gateway status JSON unavailable; run openclaw onboard or openclaw gateway status to finish backend setup"@,
        ]
    });
    let model_label = model_from_backend(&status, None, None, &log_events);
    let events = json_bool(&gateway, &capability_paths("events", "capabilities.events"));
    let approvals = json_bool(&gateway, &capability_paths("approvals", "capabilities.approvals"));
    let interrupt = json_bool(&gateway, &capability_paths("interrupt", "capabilities.interrupt"));
    let pause_resume = json_bool(
        &gateway,
        &capability_paths("pause_resume", "capabilities.pause_resume"),
    );
    let sessions_list = json_bool(&status, &capability_paths("sessions", "capabilities.sessions_list"));
    let transcript = json_bool(&status, &capability_paths("transcript", "capabilities.transcript"));
    RuntimeSnapshot {
        backend: BackendKind::OpenClaw,
        backend_label: string_from_str("OPENCLAW"),
        reachable,
        model_label,
        voice_label: Reported::Unreported,
        cpu_percent: Reported::Unreported,
        memory_percent: Reported::Unreported,
        events,
        approvals,
        interrupt,
        pause_resume,
        sessions_list,
        transcript,
        wake_available: Reported::Unreported,
        permission_posture: PermissionPosture::ObserveNotify,
        log_events,
        notes,
    }
}

} // verus!
