//! Whether voice can be activated: Avu's keyboard wake and the backend's own
//! microphone, speech-to-text and text-to-speech configuration.

use vstd::prelude::*;
use crate::config::AvuConfig;
use crate::domain::strs;
use crate::gateway::{ostr, ostr_ref};
use crate::text::{
    chars_of, concat2, concat3, eq_chars, eq_str, lines, lines_of, split_once, split_once_chars,
    starts_with, starts_with_str, string_from_str, string_of, trim, trim_chars, trim_set,
    trim_set_chars, trim_set_end, trim_set_end_chars, views,
};

verus! {

#[derive(Debug, Clone)]
pub struct VoiceActivationStatus {
    pub wake_mode: String,
    pub wake_phrase: String,
    pub keyboard_activation_available: bool,
    pub backend_voice_available: bool,
    pub record_key: Option<String>,
    pub stt_provider: Option<String>,
    pub tts_provider: Option<String>,
    pub notes: Vec<String>,
}

#[derive(Debug, Clone)]
pub struct BackendVoiceConfig {
    pub stt_enabled: bool,
    pub stt_provider: Option<String>,
    pub tts_provider: Option<String>,
    pub record_key: Option<String>,
}

/// A YAML value without surrounding whitespace and quotes, when not empty.
pub open spec fn clean_value_spec(v: Seq<char>) -> Option<Seq<char>> {
    let c = trim_set(trim(v), seq!['"', '\'']);
    if c.len() == 0 {
        None
    } else {
        Some(c)
    }
}

/// The value part of a `key: value` line whose key is `key`.
pub open spec fn key_match(line: Seq<char>, key: Seq<char>) -> Option<Seq<char>> {
    match split_once(trim(line), ':') {
        Some(p) => if trim(p.0) == key {
            Some(p.1)
        } else {
            None
        },
        None => None,
    }
}

/// The value of `key` under `section` (any indented line), scanning from line `k`.
pub open spec fn nested_scan2(
    ls: Seq<Seq<char>>,
    k: int,
    in_sec: bool,
    section: Seq<char>,
    key: Seq<char>,
) -> Option<Seq<char>>
    decreases ls.len() - k,
{
    if k < 0 || k >= ls.len() {
        None
    } else if trim(ls[k]).len() == 0 || starts_with(trim(ls[k]), "#"@) {
        nested_scan2(ls, k + 1, in_sec, section, key)
    } else if !starts_with(ls[k], " "@) {
        nested_scan2(ls, k + 1, trim_set_end(trim(ls[k]), seq![':']) == section, section, key)
    } else if in_sec && key_match(ls[k], key) is Some {
        clean_value_spec(key_match(ls[k], key)->0)
    } else {
        nested_scan2(ls, k + 1, in_sec, section, key)
    }
}

/// `section.key` of a backend's YAML voice configuration.
pub open spec fn voice_yaml_spec(text: Seq<char>, section: Seq<char>, key: Seq<char>) -> Option<
    Seq<char>,
> {
    nested_scan2(lines_of(text), 0, false, section, key)
}

fn clean_value(v: &Vec<char>) -> (r: Option<String>)
    ensures
        ostr(r) == clean_value_spec(v@),
{
    let t = trim_chars(v);
    let q: Vec<char> = vec!['"', '\''];
    assert(q@ =~= seq!['"', '\'']);
    let c = trim_set_chars(&t, &q);
    if c.len() == 0 {
        None
    } else {
        Some(string_of(&c))
    }
}

/// `section.key` of a backend's YAML voice configuration.
pub fn yaml_nested_value(text: &str, section: &str, key: &str) -> (r: Option<String>)
    ensures
        ostr(r) == voice_yaml_spec(text@, section@, key@),
{
    let tc = chars_of(text);
    let sec = chars_of(section);
    let kc = chars_of(key);
    let ls = lines(&tc);
    let colon: Vec<char> = vec![':'];
    assert(colon@ =~= seq![':']);
    let mut in_sec = false;
    let mut k: usize = 0;
    while k < ls.len()
        invariant
            k <= ls.len(),
            tc@ == text@,
            sec@ == section@,
            kc@ == key@,
            colon@ == seq![':'],
            views(ls@) == lines_of(tc@),
            nested_scan2(views(ls@), k as int, in_sec, sec@, kc@) == nested_scan2(
                views(ls@),
                0,
                false,
                sec@,
                kc@,
            ),
        decreases ls.len() - k,
    {
        let line = &ls[k];
        assert(views(ls@)[k as int] == line@);
        let t = trim_chars(line);
        if t.len() == 0 || starts_with_str(&t, "#") {
        } else if !starts_with_str(line, " ") {
            let name = trim_set_end_chars(&t, &colon);
            in_sec = eq_chars(&name, &sec);
        } else if in_sec {
            match split_once_chars(&t, ':') {
                Some(p) => {
                    let cand = trim_chars(&p.0);
                    if eq_chars(&cand, &kc) {
                        return clean_value(&p.1);
                    }
                },
                None => {},
            }
        }
        k += 1;
    }
    None
}

/// A YAML boolean: `true` or `false` exactly.
pub open spec fn yaml_bool_spec(v: Option<Seq<char>>) -> Option<bool> {
    match v {
        Some(s) => if s == "true"@ {
            Some(true)
        } else if s == "false"@ {
            Some(false)
        } else {
            None
        },
        None => None,
    }
}

/// A boolean under `section.key` of a YAML voice configuration.
pub fn yaml_nested_bool(text: &str, section: &str, key: &str) -> (r: Option<bool>)
    ensures
        r == yaml_bool_spec(voice_yaml_spec(text@, section@, key@)),
{
    match yaml_nested_value(text, section, key) {
        Some(v) => {
            let vc = chars_of(v.as_str());
            if eq_str(&vc, "true") {
                Some(true)
            } else if eq_str(&vc, "false") {
                Some(false)
            } else {
                None
            }
        },
        None => None,
    }
}

/// The voice settings read from a backend's configuration; STT counts as
/// enabled unless the configuration says otherwise.
pub fn parse_backend_voice_config(text: &str) -> (r: Option<BackendVoiceConfig>)
    ensures
        r is Some,
        r->0.stt_enabled == match yaml_bool_spec(voice_yaml_spec(text@, "stt"@, "enabled"@)) {
            Some(b) => b,
            None => true,
        },
        ostr(r->0.stt_provider) == voice_yaml_spec(text@, "stt"@, "provider"@),
        ostr(r->0.tts_provider) == voice_yaml_spec(text@, "tts"@, "provider"@),
        ostr(r->0.record_key) == voice_yaml_spec(text@, "voice"@, "record_key"@),
{
    Some(
        BackendVoiceConfig {
            stt_enabled: match yaml_nested_bool(text, "stt", "enabled") {
                Some(b) => b,
                None => true,
            },
            stt_provider: yaml_nested_value(text, "stt", "provider"),
            tts_provider: yaml_nested_value(text, "tts", "provider"),
            record_key: yaml_nested_value(text, "voice", "record_key"),
        },
    )
}

/// Wake modes in which the keyboard can wake Avu.
pub open spec fn keyboard_wake_mode(mode: Seq<char>) -> bool {
    mode == "keyboard_only"@ || mode == "push_to_talk"@ || mode == "local_wake_word"@
}

/// The backend's voice is ready: STT enabled and a TTS provider configured.
pub open spec fn backend_voice_ready(cfg: Option<Seq<char>>) -> bool {
    match cfg {
        Some(t) => (match yaml_bool_spec(voice_yaml_spec(t, "stt"@, "enabled"@)) {
            Some(b) => b,
            None => true,
        }) && voice_yaml_spec(t, "tts"@, "provider"@) is Some,
        None => false,
    }
}

/// The notes of a voice activation status.
pub open spec fn activation_notes_spec(
    keyboard: bool,
    wake_phrase: Seq<char>,
    backend_ready: bool,
    backend_label: Seq<char>,
) -> Seq<Seq<char>> {
    seq![
        if keyboard {
            "Keyboard wake is available with phrase `"@ + wake_phrase + "`"@
        } else {
            "Wake activation is disabled in Avu config"@
        },
        if backend_ready {
            backend_label + " owns microphone capture, STT, TTS, and spoken replies"@
        } else {
            backend_label
                + " voice is not fully configured; verify Hermes voice extras, STT, TTS, and audio device"@
        },
    ]
}

/// A setting of the backend's voice configuration, when there is one.
pub open spec fn cfg_value(cfg: Option<Seq<char>>, section: Seq<char>, key: Seq<char>) -> Option<
    Seq<char>,
> {
    match cfg {
        Some(t) => voice_yaml_spec(t, section, key),
        None => None,
    }
}

/// The parts of a voice activation status before it is assembled.
struct SelfStatus<'a> {
    avu_config: &'a AvuConfig,
    voice: Option<BackendVoiceConfig>,
    keyboard_activation_available: bool,
    backend_voice_available: bool,
    notes: Vec<String>,
}

impl<'a> SelfStatus<'a> {
    fn from_parts(
        avu_config: &'a AvuConfig,
        voice: Option<BackendVoiceConfig>,
        keyboard_activation_available: bool,
        backend_voice_available: bool,
        notes: Vec<String>,
    ) -> (r: Self)
        ensures
            r.avu_config == avu_config,
            r.voice == voice,
            r.keyboard_activation_available == keyboard_activation_available,
            r.backend_voice_available == backend_voice_available,
            r.notes == notes,
    {
        SelfStatus {
            avu_config,
            voice,
            keyboard_activation_available,
            backend_voice_available,
            notes,
        }
    }

    fn into_status(self) -> (r: VoiceActivationStatus)
        ensures
            r.wake_mode@ == self.avu_config.wake_mode@,
            r.wake_phrase@ == self.avu_config.wake_phrase@,
            r.keyboard_activation_available == self.keyboard_activation_available,
            r.backend_voice_available == self.backend_voice_available,
            ostr(r.record_key) == match self.voice {
                Some(v) => ostr(v.record_key),
                None => None,
            },
            ostr(r.stt_provider) == match self.voice {
                Some(v) => ostr(v.stt_provider),
                None => None,
            },
            ostr(r.tts_provider) == match self.voice {
                Some(v) => ostr(v.tts_provider),
                None => None,
            },
            r.notes == self.notes,
    {
        let (record_key, stt_provider, tts_provider) = match &self.voice {
            Some(v) => (clone_opt(&v.record_key), clone_opt(&v.stt_provider), clone_opt(&v.tts_provider)),
            None => (None, None, None),
        };
        VoiceActivationStatus {
            wake_mode: self.avu_config.wake_mode.clone(),
            wake_phrase: self.avu_config.wake_phrase.clone(),
            keyboard_activation_available: self.keyboard_activation_available,
            backend_voice_available: self.backend_voice_available,
            record_key,
            stt_provider,
            tts_provider,
            notes: self.notes,
        }
    }
}

fn clone_opt(o: &Option<String>) -> (r: Option<String>)
    ensures
        ostr(r) == ostr(*o),
{
    match o {
        Some(s) => Some(s.clone()),
        None => None,
    }
}

/// How voice can be activated with this Avu configuration and backend
/// voice configuration.
pub fn activation_status(
    avu_config: &AvuConfig,
    backend_label: &str,
    backend_voice_config: Option<&str>,
) -> (r: VoiceActivationStatus)
    ensures
        r.wake_mode@ == avu_config.wake_mode@,
        r.wake_phrase@ == avu_config.wake_phrase@,
        r.keyboard_activation_available == keyboard_wake_mode(avu_config.wake_mode@),
        r.backend_voice_available == backend_voice_ready(ostr_ref(backend_voice_config)),
        ostr(r.record_key) == cfg_value(ostr_ref(backend_voice_config), "voice"@, "record_key"@),
        ostr(r.stt_provider) == cfg_value(ostr_ref(backend_voice_config), "stt"@, "provider"@),
        ostr(r.tts_provider) == cfg_value(ostr_ref(backend_voice_config), "tts"@, "provider"@),
        strs(r.notes@) == activation_notes_spec(
            keyboard_wake_mode(avu_config.wake_mode@),
            avu_config.wake_phrase@,
            backend_voice_ready(ostr_ref(backend_voice_config)),
            backend_label@,
        ),
{
    let voice = match backend_voice_config {
        Some(t) => parse_backend_voice_config(t),
        None => None,
    };
    let mode = chars_of(avu_config.wake_mode.as_str());
    let keyboard_activation_available = eq_str(&mode, "keyboard_only") || eq_str(
        &mode,
        "push_to_talk",
    ) || eq_str(&mode, "local_wake_word");
    let mut notes: Vec<String> = Vec::new();
    if keyboard_activation_available {
        notes.push(
            concat3(
                "Keyboard wake is available with phrase `",
                avu_config.wake_phrase.as_str(),
                "`",
            ),
        );
    } else {
        notes.push(string_from_str("Wake activation is disabled in Avu config"));
    }
    let backend_voice_available = match &voice {
        Some(v) => v.stt_enabled && v.tts_provider.is_some(),
        None => false,
    };
    if backend_voice_available {
        notes.push(concat2(backend_label, " owns microphone capture, STT, TTS, and spoken replies"));
    } else {
        notes.push(
            concat2(
                backend_label,
                " voice is not fully configured; verify Hermes voice extras, STT, TTS, and audio device",
            ),
        );
    }
    assert(strs(notes@) =~= activation_notes_spec(
        keyboard_activation_available,
        avu_config.wake_phrase@,
        backend_voice_available,
        backend_label@,
    ));
    SelfStatus::from_parts(
        avu_config,
        voice,
        keyboard_activation_available,
        backend_voice_available,
        notes,
    ).into_status()
}

} // verus!
