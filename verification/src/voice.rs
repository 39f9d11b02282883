//! The voice turn state machine: arming, capture, dispatch, backend
//! processing, permission waits, spoken replies and interruption.

use vstd::prelude::*;
use crate::text::{chars_of, string_of, trim, trim_chars};

verus! {

#[derive(Debug, Clone, Copy, PartialEq, Eq, Structural)]
pub enum VoiceState {
    Idle,
    Listening,
    Capturing,
    SilencePending,
    Dispatching,
    BackendProcessing,
    WaitingPermission,
    Speaking,
    Interrupted,
    ErrorRecovery,
}

#[derive(Debug, Clone, PartialEq, Eq)]
pub enum VoiceEvent {
    Arm,
    SpeechStarted,
    SilenceDetected,
    TranscriptReady { text: String },
    BackendAccepted,
    BackendProgress,
    PermissionRequested,
    PermissionResolved { approved: bool },
    FinalResponseReady,
    TtsStarted,
    TtsEnded,
    UserInterrupted,
    Error { summary: String },
    Reset,
}

/// The state that follows `s` on `e`.
pub open spec fn next_state(s: VoiceState, e: VoiceEvent) -> VoiceState {
    match e {
        VoiceEvent::Arm | VoiceEvent::Reset => VoiceState::Listening,
        VoiceEvent::SpeechStarted => VoiceState::Capturing,
        VoiceEvent::SilenceDetected => if s == VoiceState::Capturing {
            VoiceState::SilencePending
        } else {
            s
        },
        VoiceEvent::TranscriptReady { text } => if trim(text@).len() == 0 {
            VoiceState::Listening
        } else {
            VoiceState::Dispatching
        },
        VoiceEvent::BackendAccepted | VoiceEvent::BackendProgress => VoiceState::BackendProcessing,
        VoiceEvent::PermissionRequested => VoiceState::WaitingPermission,
        VoiceEvent::PermissionResolved { approved } => if approved {
            VoiceState::BackendProcessing
        } else {
            VoiceState::Listening
        },
        VoiceEvent::FinalResponseReady | VoiceEvent::TtsStarted => VoiceState::Speaking,
        VoiceEvent::TtsEnded => VoiceState::Listening,
        VoiceEvent::UserInterrupted => if s == VoiceState::Speaking {
            VoiceState::Interrupted
        } else {
            VoiceState::Capturing
        },
        VoiceEvent::Error { .. } => VoiceState::ErrorRecovery,
    }
}

/// The last transcript after `e`: a non-blank transcript replaces it, trimmed.
pub open spec fn next_transcript(t: Option<Seq<char>>, e: VoiceEvent) -> Option<Seq<char>> {
    match e {
        VoiceEvent::TranscriptReady { text } => if trim(text@).len() == 0 {
            t
        } else {
            Some(trim(text@))
        },
        _ => t,
    }
}

/// The last error after `e`: arming or resetting clears it, an error records it.
pub open spec fn next_error(err: Option<Seq<char>>, e: VoiceEvent) -> Option<Seq<char>> {
    match e {
        VoiceEvent::Arm | VoiceEvent::Reset => None,
        VoiceEvent::Error { summary } => Some(summary@),
        _ => err,
    }
}

#[derive(Debug, Clone, PartialEq, Eq)]
pub struct VoiceMachine {
    state: VoiceState,
    last_transcript: Option<String>,
    last_error: Option<String>,
}

/// The view of an optional string.
pub open spec fn opt_view(o: Option<String>) -> Option<Seq<char>> {
    match o {
        Some(s) => Some(s@),
        None => None,
    }
}

impl VoiceMachine {
    pub closed spec fn state_spec(&self) -> VoiceState {
        self.state
    }

    pub closed spec fn transcript_spec(&self) -> Option<Seq<char>> {
        opt_view(self.last_transcript)
    }

    pub closed spec fn error_spec(&self) -> Option<Seq<char>> {
        opt_view(self.last_error)
    }

    /// An idle machine with no transcript and no error.
    pub fn new() -> (r: Self)
        ensures
            r.state_spec() == VoiceState::Idle,
            r.transcript_spec() is None,
            r.error_spec() is None,
    {
        VoiceMachine { state: VoiceState::Idle, last_transcript: None, last_error: None }
    }

    pub fn state(&self) -> (r: VoiceState)
        ensures
            r == self.state_spec(),
    {
        self.state
    }

    pub fn last_transcript(&self) -> (r: Option<&str>)
        ensures
            r matches Some(s) ==> self.transcript_spec() == Some(s@),
            r is None ==> self.transcript_spec() is None,
    {
        match &self.last_transcript {
            Some(s) => Some(s.as_str()),
            None => None,
        }
    }

    pub fn last_error(&self) -> (r: Option<&str>)
        ensures
            r matches Some(s) ==> self.error_spec() == Some(s@),
            r is None ==> self.error_spec() is None,
    {
        match &self.last_error {
            Some(s) => Some(s.as_str()),
            None => None,
        }
    }

    /// Applies one event and returns the new state.
    pub fn apply(&mut self, event: VoiceEvent) -> (r: VoiceState)
        ensures
            r == final(self).state_spec(),
            final(self).state_spec() == next_state(old(self).state_spec(), event),
            final(self).transcript_spec() == next_transcript(old(self).transcript_spec(), event),
            final(self).error_spec() == next_error(old(self).error_spec(), event),
    {
        match event {
            VoiceEvent::Arm | VoiceEvent::Reset => {
                self.last_error = None;
                self.state = VoiceState::Listening;
            },
            VoiceEvent::SpeechStarted => {
                self.state = VoiceState::Capturing;
            },
            VoiceEvent::SilenceDetected => {
                if self.state == VoiceState::Capturing {
                    self.state = VoiceState::SilencePending;
                }
            },
            VoiceEvent::TranscriptReady { text } => {
                let chars = chars_of(text.as_str());
                let trimmed = trim_chars(&chars);
                if trimmed.len() == 0 {
                    self.state = VoiceState::Listening;
                } else {
                    self.last_transcript = Some(string_of(&trimmed));
                    self.state = VoiceState::Dispatching;
                }
            },
            VoiceEvent::BackendAccepted | VoiceEvent::BackendProgress => {
                self.state = VoiceState::BackendProcessing;
            },
            VoiceEvent::PermissionRequested => {
                self.state = VoiceState::WaitingPermission;
            },
            VoiceEvent::PermissionResolved { approved } => {
                self.state = if approved {
                    VoiceState::BackendProcessing
                } else {
                    VoiceState::Listening
                };
            },
            VoiceEvent::FinalResponseReady | VoiceEvent::TtsStarted => {
                self.state = VoiceState::Speaking;
            },
            VoiceEvent::TtsEnded => {
                self.state = VoiceState::Listening;
            },
            VoiceEvent::UserInterrupted => {
                self.state =
                    if self.state == VoiceState::Speaking {
                        VoiceState::Interrupted
                    } else {
                        VoiceState::Capturing
                    };
            },
            VoiceEvent::Error { summary } => {
                self.last_error = Some(summary);
                self.state = VoiceState::ErrorRecovery;
            },
        }
        self.state
    }
}

impl Default for VoiceMachine {
    fn default() -> (r: Self)
        ensures
            r.state_spec() == VoiceState::Idle,
            r.transcript_spec() is None,
            r.error_spec() is None,
    {
        VoiceMachine::new()
    }
}

/// A spoken turn runs from arming through speech, dispatch, backend
/// processing and the spoken reply, and ends listening again.
pub proof fn law_voice_turn_returns_to_listening(text: String)
    requires
        trim(text@).len() > 0,
    ensures
        ({
            let s1 = next_state(VoiceState::Idle, VoiceEvent::Arm);
            let s2 = next_state(s1, VoiceEvent::SpeechStarted);
            let s3 = next_state(s2, VoiceEvent::SilenceDetected);
            let s4 = next_state(s3, VoiceEvent::TranscriptReady { text });
            let s5 = next_state(s4, VoiceEvent::BackendAccepted);
            let s6 = next_state(s5, VoiceEvent::FinalResponseReady);
            let s7 = next_state(s6, VoiceEvent::TtsEnded);
            s1 == VoiceState::Listening && s2 == VoiceState::Capturing && s3
                == VoiceState::SilencePending && s4 == VoiceState::Dispatching && s5
                == VoiceState::BackendProcessing && s6 == VoiceState::Speaking && s7
                == VoiceState::Listening
        }),
{
}

/// Whatever state the machine is in, the end of speech output returns it to
/// listening, and arming or resetting also clears the last error.
pub proof fn law_tts_end_and_arm_return_to_listening(s: VoiceState, err: Option<Seq<char>>)
    ensures
        next_state(s, VoiceEvent::TtsEnded) == VoiceState::Listening,
        next_state(s, VoiceEvent::Arm) == VoiceState::Listening,
        next_state(s, VoiceEvent::Reset) == VoiceState::Listening,
        next_error(err, VoiceEvent::Arm) is None,
        next_error(err, VoiceEvent::Reset) is None,
{
}

/// What each event does to the voice state, from any state: speech input
/// starts a capture, silence ends one, a transcript is dispatched unless it is
/// blank, the backend's acceptance and progress mean it is processing, a
/// permission request waits, the start of a reply or of speech output means
/// speaking, and an error leads to recovery.
pub proof fn law_voice_transitions(s: VoiceState, text: String, approved: bool, summary: String)
    ensures
        next_state(s, VoiceEvent::TtsStarted) == VoiceState::Speaking,
        next_state(s, VoiceEvent::FinalResponseReady) == VoiceState::Speaking,
        next_state(s, VoiceEvent::SpeechStarted) == VoiceState::Capturing,
        next_state(VoiceState::Capturing, VoiceEvent::SilenceDetected) == VoiceState::SilencePending,
        s != VoiceState::Capturing ==> next_state(s, VoiceEvent::SilenceDetected) == s,
        trim(text@).len() > 0 ==> next_state(s, VoiceEvent::TranscriptReady { text })
            == VoiceState::Dispatching,
        next_state(s, VoiceEvent::BackendAccepted) == VoiceState::BackendProcessing,
        next_state(s, VoiceEvent::BackendProgress) == VoiceState::BackendProcessing,
        next_state(s, VoiceEvent::PermissionRequested) == VoiceState::WaitingPermission,
        next_state(s, VoiceEvent::Error { summary }) == VoiceState::ErrorRecovery,
{
}

/// Interrupting a spoken reply leaves the machine interrupted; the next
/// speech starts a new capture.
pub proof fn law_interrupt_then_capture(s: VoiceState)
    ensures
        next_state(VoiceState::Speaking, VoiceEvent::UserInterrupted) == VoiceState::Interrupted,
        next_state(
            next_state(VoiceState::Speaking, VoiceEvent::UserInterrupted),
            VoiceEvent::SpeechStarted,
        ) == VoiceState::Capturing,
        s != VoiceState::Speaking ==> next_state(s, VoiceEvent::UserInterrupted)
            == VoiceState::Capturing,
{
}

/// What the machine remembers: a non-blank transcript is kept trimmed and no
/// other event changes the last transcript; an error is kept with its summary
/// until arming or a reset clears it, and no other event changes it.
pub proof fn law_voice_memory(t: Option<Seq<char>>, err: Option<Seq<char>>, e: VoiceEvent)
    ensures
        e is TranscriptReady && trim(e->text@).len() > 0 ==> next_transcript(t, e) == Some(
            trim(e->text@),
        ),
        !(e is TranscriptReady) ==> next_transcript(t, e) == t,
        e is Error ==> next_error(err, e) == Some(e->summary@),
        !(e is Arm) && !(e is Reset) && !(e is Error) ==> next_error(err, e) == err,
{
}

/// A blank transcript dispatches nothing: the machine listens again and the
/// last transcript is kept.
pub proof fn law_blank_transcript_not_dispatched(
    s: VoiceState,
    t: Option<Seq<char>>,
    text: String,
)
    requires
        trim(text@).len() == 0,
    ensures
        next_state(s, VoiceEvent::TranscriptReady { text }) == VoiceState::Listening,
        next_transcript(t, VoiceEvent::TranscriptReady { text }) == t,
{
}

/// A permission request followed by its resolution resumes backend
/// processing when approved and returns to listening when denied.
pub proof fn law_permission_resolution(s: VoiceState, approved: bool)
    ensures
        next_state(s, VoiceEvent::PermissionRequested) == VoiceState::WaitingPermission,
        next_state(
            next_state(s, VoiceEvent::PermissionRequested),
            VoiceEvent::PermissionResolved { approved },
        ) == (if approved {
            VoiceState::BackendProcessing
        } else {
            VoiceState::Listening
        }),
{
}

} // verus!
