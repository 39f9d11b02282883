//! Turn requests sent to a backend and the classification of the progress
//! events it reports back.

use vstd::prelude::*;
use crate::domain::EventKind;
use crate::text::{
    ascii_lowercase, ascii_uppercase, chars_of, concat2, contains_str, first_word, first_word_chars, has_sub, lower_str, lowercase,
    is_ascii_chars, push_char, push_str, split_once, split_once_chars, string_from_str, string_of, trim_set,
    trim_set_chars,
};

verus! {

#[derive(Debug, Clone, PartialEq, Eq)]
pub struct BackendTurnContext {
    pub voice_mode: bool,
    pub tts_expected: bool,
    pub progress_updates: bool,
    pub turn_id: String,
}

impl BackendTurnContext {
    /// Context of a typed turn: no voice, no speech, no progress updates.
    pub fn text(turn_id: &str) -> (r: Self)
        ensures
            !r.voice_mode && !r.tts_expected && !r.progress_updates,
            r.turn_id@ == turn_id@,
    {
        BackendTurnContext {
            voice_mode: false,
            tts_expected: false,
            progress_updates: false,
            turn_id: string_from_str(turn_id),
        }
    }

    /// Context of a spoken turn: voice, speech and progress updates expected.
    pub fn voice(turn_id: &str) -> (r: Self)
        ensures
            r.voice_mode && r.tts_expected && r.progress_updates,
            r.turn_id@ == turn_id@,
    {
        BackendTurnContext {
            voice_mode: true,
            tts_expected: true,
            progress_updates: true,
            turn_id: string_from_str(turn_id),
        }
    }
}

#[derive(Debug, Clone, PartialEq, Eq)]
pub struct BackendTurnRequest {
    pub prompt: String,
    pub context: BackendTurnContext,
}

/// The text of a boolean attribute.
pub open spec fn bool_text(b: bool) -> Seq<char> {
    if b {
        "true"@
    } else {
        "false"@
    }
}

/// The escape of one character inside an attribute value.
pub open spec fn escape_char(c: char) -> Seq<char> {
    if c == '&' {
        "&amp;"@
    } else if c == '"' {
        "&quot;"@
    } else if c == '<' {
        "&lt;"@
    } else if c == '>' {
        "&gt;"@
    } else {
        seq![c]
    }
}

/// An attribute value with `&`, `"`, `<` and `>` escaped.
pub open spec fn escape_attr_spec(s: Seq<char>) -> Seq<char>
    decreases s.len(),
{
    if s.len() == 0 {
        Seq::empty()
    } else {
        escape_attr_spec(s.drop_last()) + escape_char(s.last())
    }
}

/// The prompt that a backend receives for a voice turn.
pub open spec fn voice_prompt_spec(c: BackendTurnContext, prompt: Seq<char>) -> Seq<char> {
    "<avu_turn_context voice_mode=\"true\" tts_expected=\""@ + bool_text(c.tts_expected)
        + "\" progress_updates=\""@ + bool_text(c.progress_updates) + "\" turn_id=\""@
        + escape_attr_spec(c.turn_id@) + "\">\n"@ + voice_instructions() + "</avu_turn_context>\n"@
        + prompt
}

/// The guidance given to a backend for a spoken turn.
pub open spec fn voice_instructions() -> Seq<char> {
    "You are being used through Avu voice mode. Keep full Hermes/OpenClaw tool, agent, permission, and gateway access. Respond conversationally for spoken playback, give concise progress updates when useful, and preserve normal backend safety/approval behavior.\n"@
}

fn bool_str(b: bool) -> (r: &'static str)
    ensures
        r@ == bool_text(b),
{
    if b {
        "true"
    } else {
        "false"
    }
}

/// Escapes `&`, `"`, `<` and `>` for use inside an attribute value.
pub fn escape_attr(value: &str) -> (r: String)
    ensures
        r@ == escape_attr_spec(value@),
{
    let v = chars_of(value);
    let mut r = String::new();
    let mut i: usize = 0;
    while i < v.len()
        invariant
            i <= v.len(),
            r@ == escape_attr_spec(v@.take(i as int)),
        decreases v.len() - i,
    {
        assert(v@.take(i + 1).drop_last() =~= v@.take(i as int));
        let c = v[i];
        if c == '&' {
            push_str(&mut r, "&amp;");
        } else if c == '"' {
            push_str(&mut r, "&quot;");
        } else if c == '<' {
            push_str(&mut r, "&lt;");
        } else if c == '>' {
            push_str(&mut r, "&gt;");
        } else {
            let ghost before = r@;
            push_char(&mut r, c);
            assert(r@ =~= before + seq![c]);
        }
        i += 1;
    }
    assert(v@.take(v.len() as int) =~= v@);
    r
}

impl BackendTurnRequest {
    /// A typed turn.
    pub fn text(prompt: &str) -> (r: Self)
        ensures
            r.prompt@ == prompt@,
            !r.context.voice_mode && !r.context.tts_expected && !r.context.progress_updates,
            r.context.turn_id@ == "text-turn"@,
    {
        BackendTurnRequest {
            prompt: string_from_str(prompt),
            context: BackendTurnContext::text("text-turn"),
        }
    }

    /// A spoken turn.
    pub fn voice(prompt: &str, turn_id: &str) -> (r: Self)
        ensures
            r.prompt@ == prompt@,
            r.context.voice_mode && r.context.tts_expected && r.context.progress_updates,
            r.context.turn_id@ == turn_id@,
    {
        BackendTurnRequest { prompt: string_from_str(prompt), context: BackendTurnContext::voice(turn_id) }
    }

    /// The prompt sent to the backend: a typed turn goes as typed; a voice turn
    /// is prefixed with its context and ends with the user's prompt unchanged.
    pub fn backend_prompt(&self) -> (r: String)
        ensures
            !self.context.voice_mode ==> r@ == self.prompt@,
            self.context.voice_mode ==> r@ == voice_prompt_spec(self.context, self.prompt@),
    {
        if !self.context.voice_mode {
            return self.prompt.clone();
        }
        let mut r = string_from_str("<avu_turn_context voice_mode=\"true\" tts_expected=\"");
        push_str(&mut r, bool_str(self.context.tts_expected));
        push_str(&mut r, "\" progress_updates=\"");
        push_str(&mut r, bool_str(self.context.progress_updates));
        push_str(&mut r, "\" turn_id=\"");
        let esc = escape_attr(self.context.turn_id.as_str());
        push_str(&mut r, esc.as_str());
        push_str(&mut r, "\">\n");
        push_str(
            &mut r,
            "You are being used through Avu voice mode. Keep full Hermes/OpenClaw tool, agent, permission, and gateway access. Respond conversationally for spoken playback, give concise progress updates when useful, and preserve normal backend safety/approval behavior.\n",
        );
        push_str(&mut r, "</avu_turn_context>\n");
        push_str(&mut r, self.prompt.as_str());
        r
    }
}

/// A voice turn keeps the user's prompt intact at its end.
pub proof fn law_voice_prompt_ends_with_user_prompt(c: BackendTurnContext, prompt: Seq<char>)
    ensures
        ({
            let full = voice_prompt_spec(c, prompt);
            full.len() >= prompt.len() && full.subrange(full.len() - prompt.len(), full.len() as int)
                == prompt
        }),
{
    let full = voice_prompt_spec(c, prompt);
    let head = "<avu_turn_context voice_mode=\"true\" tts_expected=\""@ + bool_text(c.tts_expected)
        + "\" progress_updates=\""@ + bool_text(c.progress_updates) + "\" turn_id=\""@
        + escape_attr_spec(c.turn_id@) + "\">\n"@ + voice_instructions() + "</avu_turn_context>\n"@;
    assert(full == head + prompt);
    assert(full.subrange(full.len() - prompt.len(), full.len() as int) =~= prompt);
}

#[derive(Debug, Clone, Copy, PartialEq, Eq, Structural)]
pub enum BackendEventClass {
    Progress,
    ToolStarted,
    ToolFinished,
    PermissionRequested,
    PermissionResolved,
    FinalResponse,
    SpeakingStarted,
    SpeakingEnded,
    Listening,
    Warning,
    Error,
}

#[derive(Debug, Clone)]
pub struct BackendEvent {
    pub class: BackendEventClass,
    pub label: String,
}

/// The class of a backend progress line, judged on its lowercase text; the
/// first rule that applies wins.
pub open spec fn classify_spec(l: Seq<char>) -> Option<BackendEventClass> {
    if has_sub(l, "repeated_exact_failure_warning"@) {
        Some(BackendEventClass::Warning)
    } else if has_sub(l, "error"@) || has_sub(l, "failed"@) || has_sub(l, "exception"@) {
        Some(BackendEventClass::Error)
    } else if has_sub(l, "warning"@) || has_sub(l, "warn"@) {
        Some(BackendEventClass::Warning)
    } else if has_sub(l, "tts ended"@) || has_sub(l, "audio playback ended"@) || has_sub(
        l,
        "playback complete"@,
    ) {
        Some(BackendEventClass::SpeakingEnded)
    } else if has_sub(l, "voice recording"@) || has_sub(l, "recording started"@) || has_sub(
        l,
        "listening"@,
    ) || has_sub(l, "awaiting audio"@) || has_sub(l, "ready for next turn"@) {
        Some(BackendEventClass::Listening)
    } else if has_sub(l, "tts"@) || has_sub(l, "speaking"@) || has_sub(l, "audio playback"@) {
        Some(BackendEventClass::SpeakingStarted)
    } else if has_sub(l, "permission resolved"@) || has_sub(l, "approval routed"@) || has_sub(
        l,
        "approved"@,
    ) || has_sub(l, "denied"@) {
        Some(BackendEventClass::PermissionResolved)
    } else if has_sub(l, "approval"@) || has_sub(l, "approve"@) || has_sub(
        l,
        "permission requested"@,
    ) || has_sub(l, "requires permission"@) {
        Some(BackendEventClass::PermissionRequested)
    } else if has_sub(l, "tool"@) && (has_sub(l, "finish"@) || has_sub(l, "complete"@) || has_sub(
        l,
        "result"@,
    )) {
        Some(BackendEventClass::ToolFinished)
    } else if has_sub(l, "tool"@) && (has_sub(l, "start"@) || has_sub(l, "call"@) || has_sub(
        l,
        "dispatch"@,
    )) {
        Some(BackendEventClass::ToolStarted)
    } else if has_sub(l, "final response"@) || has_sub(l, "backend replied"@) || has_sub(
        l,
        "response complete"@,
    ) || has_sub(l, "turn complete"@) {
        Some(BackendEventClass::FinalResponse)
    } else if has_sub(l, "progress"@) || has_sub(l, "processing"@) || has_sub(l, "running"@)
        || has_sub(l, "session"@) {
        Some(BackendEventClass::Progress)
    } else {
        None
    }
}

/// A line that names an error.
pub open spec fn says_error(l: Seq<char>) -> bool {
    has_sub(l, "error"@) || has_sub(l, "failed"@) || has_sub(l, "exception"@)
}

/// A line that names a warning.
pub open spec fn says_warning(l: Seq<char>) -> bool {
    has_sub(l, "warning"@) || has_sub(l, "warn"@)
}

/// A line that says speech output ended.
pub open spec fn says_speech_ended(l: Seq<char>) -> bool {
    has_sub(l, "tts ended"@) || has_sub(l, "audio playback ended"@) || has_sub(
        l,
        "playback complete"@,
    )
}

/// A line that says the backend is listening for the user.
pub open spec fn says_listening(l: Seq<char>) -> bool {
    has_sub(l, "voice recording"@) || has_sub(l, "recording started"@) || has_sub(l, "listening"@)
        || has_sub(l, "awaiting audio"@) || has_sub(l, "ready for next turn"@)
}

/// A line that says speech output is under way.
pub open spec fn says_speaking(l: Seq<char>) -> bool {
    has_sub(l, "tts"@) || has_sub(l, "speaking"@) || has_sub(l, "audio playback"@)
}

/// A line that says an approval was answered.
pub open spec fn says_approval_answered(l: Seq<char>) -> bool {
    has_sub(l, "permission resolved"@) || has_sub(l, "approval routed"@) || has_sub(l, "approved"@)
        || has_sub(l, "denied"@)
}

/// A line that asks for an approval.
pub open spec fn says_approval_asked(l: Seq<char>) -> bool {
    has_sub(l, "approval"@) || has_sub(l, "approve"@) || has_sub(l, "permission requested"@)
        || has_sub(l, "requires permission"@)
}

/// A line that says a tool finished.
pub open spec fn says_tool_finished(l: Seq<char>) -> bool {
    has_sub(l, "tool"@) && (has_sub(l, "finish"@) || has_sub(l, "complete"@) || has_sub(
        l,
        "result"@,
    ))
}

/// A line that says a tool started.
pub open spec fn says_tool_started(l: Seq<char>) -> bool {
    has_sub(l, "tool"@) && (has_sub(l, "start"@) || has_sub(l, "call"@) || has_sub(l, "dispatch"@))
}

/// A line that says the reply is complete.
pub open spec fn says_reply_done(l: Seq<char>) -> bool {
    has_sub(l, "final response"@) || has_sub(l, "backend replied"@) || has_sub(
        l,
        "response complete"@,
    ) || has_sub(l, "turn complete"@)
}

/// A line that reports progress.
pub open spec fn says_progress(l: Seq<char>) -> bool {
    has_sub(l, "progress"@) || has_sub(l, "processing"@) || has_sub(l, "running"@) || has_sub(
        l,
        "session"@,
    )
}

/// A lowercase line is classified by the first of these it says, in order of
/// precedence: a repeated-failure warning, an error, a warning, the end of
/// speech, listening, speaking, an answered approval, an approval request, a
/// finished tool, a started tool, a complete reply, progress; a line that says
/// none of them has no class.
pub proof fn law_classification_precedence(l: Seq<char>)
    ensures
        has_sub(l, "repeated_exact_failure_warning"@) ==> classify_spec(l) == Some(
            BackendEventClass::Warning,
        ),
        !has_sub(l, "repeated_exact_failure_warning"@) ==> ({
            &&& says_error(l) ==> classify_spec(l) == Some(BackendEventClass::Error)
            &&& !says_error(l) && says_warning(l) ==> classify_spec(l) == Some(
                BackendEventClass::Warning,
            )
            &&& !says_error(l) && !says_warning(l) ==> ({
                &&& says_speech_ended(l) ==> classify_spec(l) == Some(
                    BackendEventClass::SpeakingEnded,
                )
                &&& !says_speech_ended(l) && says_listening(l) ==> classify_spec(l) == Some(
                    BackendEventClass::Listening,
                )
                &&& !says_speech_ended(l) && !says_listening(l) && says_speaking(l)
                    ==> classify_spec(l) == Some(BackendEventClass::SpeakingStarted)
                &&& !says_speech_ended(l) && !says_listening(l) && !says_speaking(l) ==> ({
                    &&& says_approval_answered(l) ==> classify_spec(l) == Some(
                        BackendEventClass::PermissionResolved,
                    )
                    &&& !says_approval_answered(l) && says_approval_asked(l) ==> classify_spec(l)
                        == Some(BackendEventClass::PermissionRequested)
                    &&& !says_approval_answered(l) && !says_approval_asked(l) ==> ({
                        &&& says_tool_finished(l) ==> classify_spec(l) == Some(
                            BackendEventClass::ToolFinished,
                        )
                        &&& !says_tool_finished(l) && says_tool_started(l) ==> classify_spec(l)
                            == Some(BackendEventClass::ToolStarted)
                        &&& !says_tool_finished(l) && !says_tool_started(l) && says_reply_done(l)
                            ==> classify_spec(l) == Some(BackendEventClass::FinalResponse)
                        &&& !says_tool_finished(l) && !says_tool_started(l) && !says_reply_done(l)
                            && says_progress(l) ==> classify_spec(l) == Some(
                            BackendEventClass::Progress,
                        )
                        &&& !says_tool_finished(l) && !says_tool_started(l) && !says_reply_done(l)
                            && !says_progress(l) ==> classify_spec(l) is None
                    })
                })
            })
        }),
{
}

/// The class of a lowercase progress line.
pub fn classify_lower(l: &Vec<char>) -> (r: Option<BackendEventClass>)
    ensures
        r == classify_spec(l@),
{
    if contains_str(l, "repeated_exact_failure_warning") {
        Some(BackendEventClass::Warning)
    } else if contains_str(l, "error") || contains_str(l, "failed") || contains_str(l, "exception") {
        Some(BackendEventClass::Error)
    } else if contains_str(l, "warning") || contains_str(l, "warn") {
        Some(BackendEventClass::Warning)
    } else if contains_str(l, "tts ended") || contains_str(l, "audio playback ended") || contains_str(
        l,
        "playback complete",
    ) {
        Some(BackendEventClass::SpeakingEnded)
    } else if contains_str(l, "voice recording") || contains_str(l, "recording started")
        || contains_str(l, "listening") || contains_str(l, "awaiting audio") || contains_str(
        l,
        "ready for next turn",
    ) {
        Some(BackendEventClass::Listening)
    } else if contains_str(l, "tts") || contains_str(l, "speaking") || contains_str(
        l,
        "audio playback",
    ) {
        Some(BackendEventClass::SpeakingStarted)
    } else if contains_str(l, "permission resolved") || contains_str(l, "approval routed")
        || contains_str(l, "approved") || contains_str(l, "denied") {
        Some(BackendEventClass::PermissionResolved)
    } else if contains_str(l, "approval") || contains_str(l, "approve") || contains_str(
        l,
        "permission requested",
    ) || contains_str(l, "requires permission") {
        Some(BackendEventClass::PermissionRequested)
    } else if contains_str(l, "tool") && (contains_str(l, "finish") || contains_str(l, "complete")
        || contains_str(l, "result")) {
        Some(BackendEventClass::ToolFinished)
    } else if contains_str(l, "tool") && (contains_str(l, "start") || contains_str(l, "call")
        || contains_str(l, "dispatch")) {
        Some(BackendEventClass::ToolStarted)
    } else if contains_str(l, "final response") || contains_str(l, "backend replied")
        || contains_str(l, "response complete") || contains_str(l, "turn complete") {
        Some(BackendEventClass::FinalResponse)
    } else if contains_str(l, "progress") || contains_str(l, "processing") || contains_str(
        l,
        "running",
    ) || contains_str(l, "session") {
        Some(BackendEventClass::Progress)
    } else {
        None
    }
}

/// The class of a backend progress line, judged case-insensitively.
pub fn classify_backend_event(label: &str) -> (r: Option<BackendEventClass>)
    ensures
        r == classify_spec(lowercase(label@)),
        is_ascii_chars(label@) ==> r == classify_spec(ascii_lowercase(label@)),
{
    let lower = lower_str(label);
    classify_lower(&lower)
}

proof fn lemma_ascii_lower_absorbs_case(label: Seq<char>)
    requires
        is_ascii_chars(label),
    ensures
        is_ascii_chars(ascii_uppercase(label)),
        is_ascii_chars(ascii_lowercase(label)),
        ascii_lowercase(ascii_uppercase(label)) == ascii_lowercase(label),
        ascii_lowercase(ascii_lowercase(label)) == ascii_lowercase(label),
{
    assert forall|i: int| 0 <= i < label.len() implies (#[trigger] ascii_uppercase(label)[i] as u32)
        < 128 && ascii_lowercase(ascii_uppercase(label))[i] == ascii_lowercase(label)[i] by {
        let c = label[i];
        assert(c as u32 <= 127);
    }
    assert forall|i: int| 0 <= i < label.len() implies (#[trigger] ascii_lowercase(label)[i] as u32)
        < 128 && ascii_lowercase(ascii_lowercase(label))[i] == ascii_lowercase(label)[i] by {
        let c = label[i];
        assert(c as u32 <= 127);
    }
    assert(ascii_lowercase(ascii_uppercase(label)) =~= ascii_lowercase(label));
    assert(ascii_lowercase(ascii_lowercase(label)) =~= ascii_lowercase(label));
}

/// Classification of an ASCII label ignores letter case: the label, its ASCII
/// uppercase and its ASCII lowercase are all ASCII and are classified alike.
pub proof fn law_classification_ignores_ascii_case(label: Seq<char>)
    requires
        is_ascii_chars(label),
    ensures
        is_ascii_chars(ascii_uppercase(label)),
        is_ascii_chars(ascii_lowercase(label)),
        classify_spec(ascii_lowercase(ascii_uppercase(label))) == classify_spec(ascii_lowercase(label)),
        classify_spec(ascii_lowercase(ascii_lowercase(label))) == classify_spec(ascii_lowercase(label)),
{
    lemma_ascii_lower_absorbs_case(label);
}

/// The cockpit event kind for each class of backend event.
pub open spec fn event_kind_spec(c: BackendEventClass) -> EventKind {
    match c {
        BackendEventClass::Progress => EventKind::Processing,
        BackendEventClass::ToolStarted => EventKind::ToolStart,
        BackendEventClass::ToolFinished => EventKind::ToolFinish,
        BackendEventClass::PermissionRequested => EventKind::ApprovalRequested,
        BackendEventClass::PermissionResolved => EventKind::ApprovalRouted,
        BackendEventClass::FinalResponse => EventKind::ResponseStream,
        BackendEventClass::SpeakingStarted => EventKind::Speaking,
        BackendEventClass::SpeakingEnded | BackendEventClass::Listening => EventKind::Listening,
        BackendEventClass::Warning => EventKind::Warning,
        BackendEventClass::Error => EventKind::Error,
    }
}

/// The cockpit event each class of backend line shows as: an answered
/// approval is a routed approval, a request asks for one, the end of speech
/// and listening both mean listening, and so on.
pub proof fn law_class_event_kinds()
    ensures
        event_kind_spec(BackendEventClass::Progress) == EventKind::Processing,
        event_kind_spec(BackendEventClass::ToolStarted) == EventKind::ToolStart,
        event_kind_spec(BackendEventClass::ToolFinished) == EventKind::ToolFinish,
        event_kind_spec(BackendEventClass::PermissionRequested) == EventKind::ApprovalRequested,
        event_kind_spec(BackendEventClass::PermissionResolved) == EventKind::ApprovalRouted,
        event_kind_spec(BackendEventClass::FinalResponse) == EventKind::ResponseStream,
        event_kind_spec(BackendEventClass::SpeakingStarted) == EventKind::Speaking,
        event_kind_spec(BackendEventClass::SpeakingEnded) == EventKind::Listening,
        event_kind_spec(BackendEventClass::Listening) == EventKind::Listening,
        event_kind_spec(BackendEventClass::Warning) == EventKind::Warning,
        event_kind_spec(BackendEventClass::Error) == EventKind::Error,
{
}

pub fn event_kind_for_class(class: &BackendEventClass) -> (r: EventKind)
    ensures
        r == event_kind_spec(*class),
{
    match class {
        BackendEventClass::Progress => EventKind::Processing,
        BackendEventClass::ToolStarted => EventKind::ToolStart,
        BackendEventClass::ToolFinished => EventKind::ToolFinish,
        BackendEventClass::PermissionRequested => EventKind::ApprovalRequested,
        BackendEventClass::PermissionResolved => EventKind::ApprovalRouted,
        BackendEventClass::FinalResponse => EventKind::ResponseStream,
        BackendEventClass::SpeakingStarted => EventKind::Speaking,
        BackendEventClass::SpeakingEnded | BackendEventClass::Listening => EventKind::Listening,
        BackendEventClass::Warning => EventKind::Warning,
        BackendEventClass::Error => EventKind::Error,
    }
}

/// The tool named by a progress label: the first word after the first `:`
/// (or of the whole label), without surrounding backticks, commas and semicolons.
pub open spec fn compact_tool_label_spec(label: Seq<char>) -> Seq<char> {
    let after = match split_once(label, ':') {
        Some(p) => p.1,
        None => label,
    };
    let w = match first_word(after) {
        Some(w) => w,
        None => "backend tool"@,
    };
    trim_set(w, seq!['`', ',', ';'])
}

/// The tool named by a progress label.
pub fn compact_tool_label(label: &str) -> (r: String)
    ensures
        r@ == compact_tool_label_spec(label@),
{
    let l = chars_of(label);
    let after = match split_once_chars(&l, ':') {
        Some(p) => p.1,
        None => l,
    };
    let w = match first_word_chars(&after) {
        Some(w) => w,
        None => chars_of("backend tool"),
    };
    let set: Vec<char> = vec!['`', ',', ';'];
    assert(set@ =~= seq!['`', ',', ';']);
    string_of(&trim_set_chars(&w, &set))
}

/// What Avu says aloud for each kind of progress event.
pub open spec fn spoken_progress_spec(kind: EventKind, label: Seq<char>) -> Option<Seq<char>> {
    match kind {
        EventKind::Processing => Some("Processing your request"@),
        EventKind::ToolStart => Some("Using "@ + compact_tool_label_spec(label)),
        EventKind::ToolFinish => Some("Finished "@ + compact_tool_label_spec(label)),
        EventKind::ApprovalRequested => Some("Permission needed"@),
        EventKind::ApprovalRouted => Some("Permission response sent"@),
        EventKind::ResponseStream => Some("Answer ready"@),
        EventKind::Speaking => Some("Speaking response"@),
        EventKind::Listening => Some("Listening for the next turn"@),
        EventKind::Warning => Some("Backend warning"@),
        EventKind::Error => Some("Backend error"@),
        EventKind::WakeWord | EventKind::Idle => None,
    }
}

/// A short spoken progress message for an event, if the event warrants one.
pub fn spoken_progress_for_event(kind: &EventKind, label: &str) -> (r: Option<String>)
    ensures
        r matches Some(s) ==> spoken_progress_spec(*kind, label@) == Some(s@),
        r is None ==> spoken_progress_spec(*kind, label@) is None,
{
    match kind {
        EventKind::Processing => Some(string_from_str("Processing your request")),
        EventKind::ToolStart => {
            let t = compact_tool_label(label);
            Some(concat2("Using ", t.as_str()))
        },
        EventKind::ToolFinish => {
            let t = compact_tool_label(label);
            Some(concat2("Finished ", t.as_str()))
        },
        EventKind::ApprovalRequested => Some(string_from_str("Permission needed")),
        EventKind::ApprovalRouted => Some(string_from_str("Permission response sent")),
        EventKind::ResponseStream => Some(string_from_str("Answer ready")),
        EventKind::Speaking => Some(string_from_str("Speaking response")),
        EventKind::Listening => Some(string_from_str("Listening for the next turn")),
        EventKind::Warning => Some(string_from_str("Backend warning")),
        EventKind::Error => Some(string_from_str("Backend error")),
        EventKind::WakeWord | EventKind::Idle => None,
    }
}

} // verus!
