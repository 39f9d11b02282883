//! Spoken and typed control intents, and the rule that decides how an
//! intent may answer a pending backend approval.

use vstd::prelude::*;
use crate::domain::{ApprovalRequest, Severity};
use crate::text::{
    char_index_at_byte, char_index_at_byte_exec, utf8_len, utf8_len_exec, char_is_ws, chars_of,
    eq_str, is_ws, lower_chars, lowercase, matches_at_exec, remove_set, remove_set_chars,
    slice_chars, starts_with, starts_with_str, string_of, trim, trim_chars,
};

verus! {

#[derive(Debug, Clone, PartialEq, Eq)]
pub enum Intent {
    Status,
    ListSessions,
    Pause,
    Resume,
    Interrupt,
    Approve,
    Reject,
    ConfirmApprove,
    SwitchSession(u8),
    Mute,
    Unknown(String),
}

#[derive(Debug, Clone, PartialEq, Eq)]
pub enum ApprovalGate {
    NoPendingApproval,
    RouteReject { approval_id: String },
    RouteApprove { approval_id: String },
    RequireSecondConfirmation { summary: String },
    UnsupportedIntent,
}

/// Separators allowed right after a wake phrase.
pub open spec fn wake_separator(c: char) -> bool {
    is_ws(c) || c == ',' || c == '.' || c == ':' || c == ';' || c == '!' || c == '?'
}

/// `input` (case-insensitively) begins with the trimmed wake phrase, followed
/// by its end or a separator.
pub open spec fn wake_matches(input: Seq<char>, wake: Seq<char>) -> bool {
    let phrase = trim(wake);
    let li = lowercase(input);
    let lp = lowercase(phrase);
    &&& phrase.len() > 0
    &&& starts_with(li, lp)
    &&& (li.len() == lp.len() || wake_separator(li[lp.len() as int]))
}

/// Removing the wake phrase from `input` stays on a character boundary (the
/// byte length of the phrase is a boundary of `input`), or nothing is removed.
pub open spec fn wake_strip_defined(input: Seq<char>, wake: Seq<char>) -> bool {
    wake_matches(input, wake) && lowercase(input).len() != lowercase(trim(wake)).len()
        ==> char_index_at_byte(input, utf8_len(trim(wake))) is Some
}

/// What is left of `input` once the wake phrase is removed, if it is there.
pub open spec fn strip_wake_spec(input: Seq<char>, wake: Seq<char>) -> Option<Seq<char>> {
    if !wake_matches(input, wake) {
        None
    } else if lowercase(input).len() == lowercase(trim(wake)).len() {
        Some(Seq::empty())
    } else {
        Some(input.skip(char_index_at_byte(input, utf8_len(trim(wake)))->0))
    }
}

/// `input` without the wake phrase at its front, if it is there.
///
/// The phrase is compared case-insensitively and must be followed by the end
/// of `input` or a separator; the remainder starts after as many bytes of
/// `input` as the trimmed phrase holds.
pub fn strip_wake_phrase(input: &str, wake_phrase: &str) -> (r: Option<String>)
    requires
        wake_strip_defined(input@, wake_phrase@),
    ensures
        r matches Some(s) ==> strip_wake_spec(input@, wake_phrase@) == Some(s@),
        r is None ==> strip_wake_spec(input@, wake_phrase@) is None,
{
    let wake = chars_of(wake_phrase);
    let phrase = trim_chars(&wake);
    if phrase.len() == 0 {
        return None;
    }
    let input_chars = chars_of(input);
    let lower_input = lower_chars(&input_chars);
    let lower_phrase = lower_chars(&phrase);
    if !matches_at_exec(&lower_input, &lower_phrase, 0) {
        return None;
    }
    if lower_input.len() == lower_phrase.len() {
        let e: Vec<char> = Vec::new();
        assert(e@ =~= Seq::<char>::empty());
        return Some(string_of(&e));
    }
    let first = lower_input[lower_phrase.len()];
    if !(char_is_ws(first) || first == ',' || first == '.' || first == ':' || first == ';' || first
        == '!' || first == '?') {
        return None;
    }
    let plen = utf8_len_exec(&phrase);
    let k = match char_index_at_byte_exec(&input_chars, plen) {
        Some(k) => k,
        None => {
            assert(false);
            0
        },
    };
    let rest = slice_chars(&input_chars, k, input_chars.len());
    Some(string_of(&rest))
}

/// Commands that a wake-prefixed utterance may carry, after normalisation.
pub open spec fn intent_for(n: Seq<char>, i: Intent) -> bool {
    if n == "status"@ || n == "what is happening"@ {
        i == Intent::Status
    } else if n == "what is running"@ || n == "sessions"@ || n == "list sessions"@ {
        i == Intent::ListSessions
    } else if n == "pause"@ || n == "pause run"@ {
        i == Intent::Pause
    } else if n == "resume"@ || n == "resume run"@ {
        i == Intent::Resume
    } else if n == "interrupt"@ || n == "stop"@ {
        i == Intent::Interrupt
    } else if n == "approve"@ {
        i == Intent::Approve
    } else if n == "reject"@ || n == "deny"@ {
        i == Intent::Reject
    } else if n == "confirm approve"@ || n == "confirm approval"@ {
        i == Intent::ConfirmApprove
    } else if n == "mute"@ || n == "mute microphone"@ {
        i == Intent::Mute
    } else if starts_with(n, "switch to session "@) {
        i == Intent::SwitchSession(
            match parse_u8_spec(trim_set_start_str(n, "switch to session "@)) {
                Some(v) => v,
                None => 1u8,
            },
        )
    } else {
        i matches Intent::Unknown(s) && s@ == n
    }
}

/// `str::trim_start_matches` with a string pattern: every leading copy of `p` removed.
pub open spec fn trim_set_start_str(s: Seq<char>, p: Seq<char>) -> Seq<char>
    decreases s.len(),
{
    if p.len() > 0 && starts_with(s, p) {
        trim_set_start_str(s.skip(p.len() as int), p)
    } else {
        s
    }
}

/// Decimal value of a run of ASCII digits.
pub open spec fn digits_value(s: Seq<char>) -> int
    decreases s.len(),
{
    if s.len() == 0 {
        0
    } else {
        digits_value(s.drop_last()) * 10 + (s.last() as int - '0' as int)
    }
}

pub open spec fn is_digit(c: char) -> bool {
    '0' <= c && c <= '9'
}

/// Every character of `d` is an ASCII digit.
pub open spec fn all_digits(d: Seq<char>) -> bool {
    forall|i: int| 0 <= i < d.len() ==> is_digit(#[trigger] d[i])
}

/// `u8::from_str`: an optional `+`, then at least one ASCII digit, value at most 255.
pub open spec fn parse_u8_spec(s: Seq<char>) -> Option<u8> {
    let d = if s.len() > 0 && s[0] == '+' {
        s.skip(1)
    } else {
        s
    };
    if d.len() == 0 || !all_digits(d) {
        None
    } else if digits_value(d) <= 255 {
        Some(digits_value(d) as u8)
    } else {
        None
    }
}

/// `u8::from_str`.
pub fn parse_u8(s: &Vec<char>) -> (r: Option<u8>)
    ensures
        r == parse_u8_spec(s@),
{
    let start: usize = if s.len() > 0 && s[0] == '+' {
        1
    } else {
        0
    };
    let d = slice_chars(s, start, s.len());
    assert(d@ =~= (if s@.len() > 0 && s@[0] == '+' {
        s@.skip(1)
    } else {
        s@
    }));
    if d.len() == 0 {
        return None;
    }
    assert(d@.take(0) =~= Seq::<char>::empty());
    // value saturated at 256
    let mut v: u32 = 0;
    let mut i: usize = 0;
    while i < d.len()
        invariant
            i <= d.len(),
            d@ == (if s@.len() > 0 && s@[0] == '+' {
                s@.skip(1)
            } else {
                s@
            }),
            forall|j: int| 0 <= j < i ==> is_digit(#[trigger] d@[j]),
            v as int == if digits_value(d@.take(i as int)) >= 256 {
                256
            } else {
                digits_value(d@.take(i as int))
            },
            digits_value(d@.take(i as int)) >= 0,
        decreases d.len() - i,
    {
        let c = d[i];
        if !('0' <= c && c <= '9') {
            proof {
                let dd = if s@.len() > 0 && s@[0] == '+' {
                    s@.skip(1)
                } else {
                    s@
                };
                assert(dd == d@);
                assert(!is_digit(dd[i as int]));
                assert(!all_digits(dd));
            }
            return None;
        }
        assert(d@.take(i + 1).drop_last() =~= d@.take(i as int));
        let digit = (c as u32) - ('0' as u32);
        let ghost prev = digits_value(d@.take(i as int));
        assert(digits_value(d@.take(i + 1)) == prev * 10 + digit);
        if v >= 256 {
            assert(prev * 10 + digit >= 256) by (nonlinear_arith)
                requires
                    prev >= 256,
                    digit >= 0,
            ;
            v = 256;
        } else {
            let nv = v * 10 + digit;
            v = if nv >= 256 {
                256
            } else {
                nv
            };
        }
        i += 1;
    }
    assert(d@.take(d.len() as int) =~= d@);
    let ghost dd = if s@.len() > 0 && s@[0] == '+' {
        s@.skip(1)
    } else {
        s@
    };
    assert(dd == d@);
    assert(all_digits(dd));
    if v <= 255 {
        assert(digits_value(dd) <= 255);
        Some(v as u8)
    } else {
        assert(digits_value(dd) > 255);
        None
    }
}

fn trim_start_str_exec(s: &Vec<char>, p: &str) -> (r: Vec<char>)
    ensures
        r@ == trim_set_start_str(s@, p@),
{
    let pc = chars_of(p);
    let mut start: usize = 0;
    if pc.len() == 0 {
        return slice_chars(s, 0, s.len());
    }
    assert(s@.skip(0) =~= s@);
    while start <= s.len() && matches_at_exec(s, &pc, start)
        invariant
            start <= s.len(),
            pc@ == p@,
            pc@.len() > 0,
            trim_set_start_str(s@.skip(start as int), p@) == trim_set_start_str(s@, p@),
        decreases s.len() - start,
    {
        let ghost t = s@.skip(start as int);
        assert forall|j: int| 0 <= j < pc@.len() implies #[trigger] t[0 + j] == pc@[j] by {
            assert(s@[start + j] == pc@[j]);
        }
        assert(t.skip(pc@.len() as int) =~= s@.skip(start + pc@.len()));
        start = start + pc.len();
    }
    let ghost t = s@.skip(start as int);
    assert(!starts_with(t, p@)) by {
        if starts_with(t, p@) {
            assert forall|j: int| 0 <= j < pc@.len() implies #[trigger] s@[start + j] == pc@[j] by {
                assert(t[0 + j] == pc@[j]);
            }
        }
    }
    slice_chars(s, start, s.len())
}

/// The normalised command of an utterance: lowercase, without `,` and `.`, trimmed.
pub open spec fn normalize(s: Seq<char>) -> Seq<char> {
    trim(remove_set(lowercase(s), seq![',', '.']))
}

fn normalize_exec(s: &Vec<char>) -> (r: Vec<char>)
    ensures
        r@ == normalize(s@),
{
    let l = lower_chars(s);
    let set: Vec<char> = vec![',', '.'];
    assert(set@ =~= seq![',', '.']);
    let rm = remove_set_chars(&l, &set);
    trim_chars(&rm)
}

/// The intent of an utterance with the wake phrase removed when present.
pub open spec fn parse_intent_spec(input: Seq<char>, wake: Seq<char>, i: Intent) -> bool {
    match strip_wake_spec(trim(input), wake) {
        Some(rest) => intent_for(normalize(rest), i),
        None => intent_for(normalize(normalize(trim(input))), i),
    }
}

fn eq_any2(n: &Vec<char>, a: &str, b: &str) -> (r: bool)
    ensures
        r == (n@ == a@ || n@ == b@),
{
    eq_str(n, a) || eq_str(n, b)
}

fn intent_of(n: &Vec<char>) -> (r: Intent)
    ensures
        intent_for(n@, r),
{
    if eq_any2(n, "status", "what is happening") {
        Intent::Status
    } else if eq_any2(n, "what is running", "sessions") || eq_str(n, "list sessions") {
        Intent::ListSessions
    } else if eq_any2(n, "pause", "pause run") {
        Intent::Pause
    } else if eq_any2(n, "resume", "resume run") {
        Intent::Resume
    } else if eq_any2(n, "interrupt", "stop") {
        Intent::Interrupt
    } else if eq_str(n, "approve") {
        Intent::Approve
    } else if eq_any2(n, "reject", "deny") {
        Intent::Reject
    } else if eq_any2(n, "confirm approve", "confirm approval") {
        Intent::ConfirmApprove
    } else if eq_any2(n, "mute", "mute microphone") {
        Intent::Mute
    } else if starts_with_str(n, "switch to session ") {
        let rest = trim_start_str_exec(n, "switch to session ");
        let number = match parse_u8(&rest) {
            Some(v) => v,
            None => 1,
        };
        Intent::SwitchSession(number)
    } else {
        Intent::Unknown(string_of(n))
    }
}

/// The intent of an utterance addressed with `wake_phrase` (or without it).
pub fn parse_intent_with_wake_phrase(input: &str, wake_phrase: &str) -> (r: Intent)
    requires
        wake_strip_defined(trim(input@), wake_phrase@),
    ensures
        parse_intent_spec(input@, wake_phrase@, r),
{
    let input_chars = chars_of(input);
    let trimmed = trim_chars(&input_chars);
    let trimmed_s = string_of(&trimmed);
    let without_wake = strip_wake_phrase(trimmed_s.as_str(), wake_phrase);
    let normalized = match without_wake {
        Some(rest) => {
            let rc = chars_of(rest.as_str());
            normalize_exec(&rc)
        },
        None => {
            let first = normalize_exec(&trimmed);
            normalize_exec(&first)
        },
    };
    intent_of(&normalized)
}

/// Parsing is defined for both wake phrases that Avu answers to.
pub open spec fn parse_intent_defined(input: Seq<char>) -> bool {
    wake_strip_defined(trim(input), "hey avu"@) && wake_strip_defined(trim(input), "avu"@)
}

/// The command an utterance carries: the rest after the wake phrase, or the
/// whole utterance, trimmed, lowercased and without `,` or `.`.
pub open spec fn spoken_command(input: Seq<char>, wake: Seq<char>) -> Seq<char> {
    match strip_wake_spec(trim(input), wake) {
        Some(rest) => normalize(rest),
        None => normalize(normalize(trim(input))),
    }
}

/// One of the fixed command words.
pub open spec fn is_command_word(n: Seq<char>) -> bool {
    n == "status"@ || n == "what is happening"@ || n == "what is running"@ || n == "sessions"@ || n
        == "list sessions"@ || n == "pause"@ || n == "pause run"@ || n == "resume"@ || n
        == "resume run"@ || n == "interrupt"@ || n == "stop"@ || n == "approve"@ || n == "reject"@
        || n == "deny"@ || n == "confirm approve"@ || n == "confirm approval"@ || n == "mute"@ || n
        == "mute microphone"@
}

proof fn lemma_command_word_intents(n: Seq<char>, i: Intent)
    requires
        intent_for(n, i),
    ensures
        (n == "status"@ || n == "what is happening"@) ==> i == Intent::Status,
        (n == "what is running"@ || n == "sessions"@ || n == "list sessions"@) ==> i
            == Intent::ListSessions,
        (n == "pause"@ || n == "pause run"@) ==> i == Intent::Pause,
        (n == "resume"@ || n == "resume run"@) ==> i == Intent::Resume,
        (n == "interrupt"@ || n == "stop"@) ==> i == Intent::Interrupt,
        n == "approve"@ ==> i == Intent::Approve,
        (n == "reject"@ || n == "deny"@) ==> i == Intent::Reject,
        (n == "confirm approve"@ || n == "confirm approval"@) ==> i == Intent::ConfirmApprove,
        (n == "mute"@ || n == "mute microphone"@) ==> i == Intent::Mute,
{
    reveal_strlit("status");
    reveal_strlit("what is happening");
    reveal_strlit("what is running");
    reveal_strlit("sessions");
    reveal_strlit("list sessions");
    reveal_strlit("pause");
    reveal_strlit("pause run");
    reveal_strlit("resume");
    reveal_strlit("resume run");
    reveal_strlit("interrupt");
    reveal_strlit("stop");
    reveal_strlit("approve");
    reveal_strlit("reject");
    reveal_strlit("deny");
    reveal_strlit("confirm approve");
    reveal_strlit("confirm approval");
    reveal_strlit("mute");
    reveal_strlit("mute microphone");
    reveal_strlit("switch to session ");
    if n == "status"@ {
        assert(i == Intent::Status);
    }
    if n == "what is happening"@ {
        assert(i == Intent::Status);
    }
    if n == "what is running"@ {
        assert(i == Intent::ListSessions);
    }
    if n == "sessions"@ {
        assert(i == Intent::ListSessions);
    }
    if n == "list sessions"@ {
        assert(i == Intent::ListSessions);
    }
    if n == "pause"@ {
        assert(i == Intent::Pause);
    }
    if n == "pause run"@ {
        assert(i == Intent::Pause);
    }
    if n == "resume"@ {
        assert("resume"@[0] != "status"@[0]);
        assert(i == Intent::Resume);
    }
    if n == "resume run"@ {
        assert(i == Intent::Resume);
    }
    if n == "interrupt"@ {
        assert("interrupt"@[0] != "pause run"@[0]);
        assert(i == Intent::Interrupt);
    }
    if n == "stop"@ {
        assert(i == Intent::Interrupt);
    }
    if n == "approve"@ {
        assert(i == Intent::Approve);
    }
    if n == "reject"@ {
        assert("reject"@[0] != "status"@[0]);
        assert("reject"@[2] != "resume"@[2]);
        assert(i == Intent::Reject);
    }
    if n == "deny"@ {
        assert("deny"@[0] != "stop"@[0]);
        assert(i == Intent::Reject);
    }
    if n == "confirm approve"@ {
        assert("confirm approve"@[0] != "what is running"@[0]);
        assert(i == Intent::ConfirmApprove);
    }
    if n == "confirm approval"@ {
        assert(i == Intent::ConfirmApprove);
    }
    if n == "mute"@ {
        assert("mute"@[0] != "stop"@[0]);
        assert("mute"@[0] != "deny"@[0]);
        assert(i == Intent::Mute);
    }
    if n == "mute microphone"@ {
        assert("mute microphone"@[0] != "what is running"@[0]);
        assert("mute microphone"@[0] != "confirm approve"@[0]);
        assert(i == Intent::Mute);
    }
}

proof fn lemma_other_command_intents(n: Seq<char>, i: Intent)
    requires
        intent_for(n, i),
    ensures
        !is_command_word(n) && starts_with(n, "switch to session "@) ==> i is SwitchSession,
        !is_command_word(n) && !starts_with(n, "switch to session "@) ==> (i matches Intent::Unknown(
            s,
        ) && s@ == n),
{
}

/// What each spoken command asks for, whatever the utterance around it:
/// `stop` and `interrupt` interrupt the run, `pause` pauses it, `deny` and
/// `reject` reject the pending approval, and so on for every command word;
/// `switch to session` switches sessions, and any other command is unknown.
pub proof fn law_spoken_command_intents(input: Seq<char>, wake: Seq<char>, i: Intent)
    requires
        parse_intent_spec(input, wake, i),
    ensures
        ({
            let n = spoken_command(input, wake);
            &&& (n == "status"@ || n == "what is happening"@) ==> i == Intent::Status
            &&& (n == "what is running"@ || n == "sessions"@ || n == "list sessions"@) ==> i
                == Intent::ListSessions
            &&& (n == "pause"@ || n == "pause run"@) ==> i == Intent::Pause
            &&& (n == "resume"@ || n == "resume run"@) ==> i == Intent::Resume
            &&& (n == "interrupt"@ || n == "stop"@) ==> i == Intent::Interrupt
            &&& n == "approve"@ ==> i == Intent::Approve
            &&& (n == "reject"@ || n == "deny"@) ==> i == Intent::Reject
            &&& (n == "confirm approve"@ || n == "confirm approval"@) ==> i == Intent::ConfirmApprove
            &&& (n == "mute"@ || n == "mute microphone"@) ==> i == Intent::Mute
            &&& !is_command_word(n) && starts_with(n, "switch to session "@) ==> i is SwitchSession
            &&& !is_command_word(n) && !starts_with(n, "switch to session "@) ==> (i matches Intent::Unknown(
                s,
            ) && s@ == n)
        }),
{
    let n = spoken_command(input, wake);
    assert(intent_for(n, i));
    lemma_command_word_intents(n, i);
    lemma_other_command_intents(n, i);
}

/// Two intents that fit the same normalised command agree, up to the text of
/// an unknown command.
pub proof fn lemma_intent_for_unique(n: Seq<char>, i1: Intent, i2: Intent)
    requires
        intent_for(n, i1),
        intent_for(n, i2),
    ensures
        (i1 is Unknown) == (i2 is Unknown),
        !(i1 is Unknown) ==> i1 == i2,
{
}

proof fn lemma_parse_intent_unique(input: Seq<char>, wake: Seq<char>, i1: Intent, i2: Intent)
    requires
        parse_intent_spec(input, wake, i1),
        parse_intent_spec(input, wake, i2),
    ensures
        (i1 is Unknown) == (i2 is Unknown),
        !(i1 is Unknown) ==> i1 == i2,
{
    match strip_wake_spec(trim(input), wake) {
        Some(rest) => lemma_intent_for_unique(normalize(rest), i1, i2),
        None => lemma_intent_for_unique(normalize(normalize(trim(input))), i1, i2),
    }
}

/// The intent of an utterance addressed as "hey avu", "avu", or not addressed:
/// the reading with "hey avu" wins unless it is unknown.
pub fn parse_intent(input: &str) -> (r: Intent)
    requires
        parse_intent_defined(input@),
    ensures
        forall|i: Intent|
            #[trigger] parse_intent_spec(input@, "hey avu"@, i) ==> if i is Unknown {
                parse_intent_spec(input@, "avu"@, r)
            } else {
                r == i
            },
{
    let parsed = parse_intent_with_wake_phrase(input, "hey avu");
    let unknown = match &parsed {
        Intent::Unknown(_) => true,
        _ => false,
    };
    proof {
        assert forall|i: Intent| #[trigger] parse_intent_spec(input@, "hey avu"@, i) implies (
        i is Unknown) == unknown && (!(i is Unknown) ==> parsed == i) by {
            lemma_parse_intent_unique(input@, "hey avu"@, i, parsed);
        }
    }
    if unknown {
        parse_intent_with_wake_phrase(input, "avu")
    } else {
        parsed
    }
}

/// Whether removing the wake phrase from `input` is defined (see
/// `wake_strip_defined`); computed from the same case folding the parser uses.
pub fn wake_strip_is_defined(input: &str, wake_phrase: &str) -> (r: bool)
    ensures
        r == wake_strip_defined(input@, wake_phrase@),
{
    let wake = chars_of(wake_phrase);
    let phrase = trim_chars(&wake);
    let input_chars = chars_of(input);
    let lower_input = lower_chars(&input_chars);
    let lower_phrase = lower_chars(&phrase);
    let matches = phrase.len() > 0 && matches_at_exec(&lower_input, &lower_phrase, 0) && (
    lower_input.len() == lower_phrase.len() || {
        let c = lower_input[lower_phrase.len()];
        char_is_ws(c) || c == ',' || c == '.' || c == ':' || c == ';' || c == '!' || c == '?'
    });
    if !matches || lower_input.len() == lower_phrase.len() {
        return true;
    }
    let plen = utf8_len_exec(&phrase);
    char_index_at_byte_exec(&input_chars, plen).is_some()
}

/// The intent of an utterance, or `None` where removing a wake phrase from it
/// would cut a character in two.
pub fn try_parse_intent(input: &str) -> (r: Option<Intent>)
    ensures
        r is Some <==> parse_intent_defined(input@),
{
    let chars = chars_of(input);
    let trimmed = trim_chars(&chars);
    let t = string_of(&trimmed);
    if wake_strip_is_defined(t.as_str(), "hey avu") && wake_strip_is_defined(t.as_str(), "avu") {
        Some(parse_intent(input))
    } else {
        None
    }
}

/// An approval that must be confirmed a second time before it is routed.
pub open spec fn needs_second_confirmation_spec(a: ApprovalRequest) -> bool {
    a.requires_second_confirmation || a.severity == Severity::High || a.severity
        == Severity::Destructive
}

/// How an intent may answer the pending approval.
pub open spec fn approval_gate_spec(
    intent: Intent,
    pending: Option<ApprovalRequest>,
    armed: bool,
    g: ApprovalGate,
) -> bool {
    match pending {
        None => if intent == Intent::Approve || intent == Intent::Reject || intent
            == Intent::ConfirmApprove {
            g == ApprovalGate::NoPendingApproval
        } else {
            g == ApprovalGate::UnsupportedIntent
        },
        Some(a) => if intent == Intent::Reject {
            g matches ApprovalGate::RouteReject { approval_id } && approval_id@ == a.id@
        } else if intent == Intent::Approve {
            if needs_second_confirmation_spec(a) && !armed {
                g matches ApprovalGate::RequireSecondConfirmation { summary } && summary@
                    == a.summary@
            } else {
                g matches ApprovalGate::RouteApprove { approval_id } && approval_id@ == a.id@
            }
        } else if intent == Intent::ConfirmApprove {
            g matches ApprovalGate::RouteApprove { approval_id } && approval_id@ == a.id@
        } else {
            g == ApprovalGate::UnsupportedIntent
        },
    }
}

fn needs_second_confirmation(a: &ApprovalRequest) -> (r: bool)
    ensures
        r == needs_second_confirmation_spec(*a),
{
    a.requires_second_confirmation || a.severity == Severity::High || a.severity
        == Severity::Destructive
}

/// How `intent` may answer the pending approval, if any.
pub fn approval_gate(intent: &Intent, pending: Option<&ApprovalRequest>, confirmation_armed: bool) -> (r: ApprovalGate)
    ensures
        approval_gate_spec(
            *intent,
            match pending {
                Some(a) => Some(*a),
                None => None,
            },
            confirmation_armed,
            r,
        ),
{
    match pending {
        None => match intent {
            Intent::Approve | Intent::Reject | Intent::ConfirmApprove => {
                ApprovalGate::NoPendingApproval
            },
            _ => ApprovalGate::UnsupportedIntent,
        },
        Some(approval) => match intent {
            Intent::Reject => ApprovalGate::RouteReject { approval_id: approval.id.clone() },
            Intent::Approve => {
                if needs_second_confirmation(approval) && !confirmation_armed {
                    ApprovalGate::RequireSecondConfirmation { summary: approval.summary.clone() }
                } else {
                    ApprovalGate::RouteApprove { approval_id: approval.id.clone() }
                }
            },
            Intent::ConfirmApprove => ApprovalGate::RouteApprove {
                approval_id: approval.id.clone(),
            },
            _ => ApprovalGate::UnsupportedIntent,
        },
    }
}

/// Approving a destructive or high-severity request never routes it on the
/// first word: unless the operator has armed confirmation, the rule asks for
/// a second confirmation, and an explicit confirmation always routes it.
pub proof fn law_destructive_approval_needs_confirmation(
    a: ApprovalRequest,
    g1: ApprovalGate,
    g2: ApprovalGate,
)
    requires
        a.severity == Severity::Destructive || a.severity == Severity::High
            || a.requires_second_confirmation,
        approval_gate_spec(Intent::Approve, Some(a), false, g1),
        approval_gate_spec(Intent::ConfirmApprove, Some(a), true, g2),
    ensures
        g1 matches ApprovalGate::RequireSecondConfirmation { summary } && summary@ == a.summary@,
        g2 matches ApprovalGate::RouteApprove { approval_id } && approval_id@ == a.id@,
{
}

/// Without a pending approval nothing is routed, whatever the intent.
pub proof fn law_no_route_without_pending(intent: Intent, armed: bool, g: ApprovalGate)
    requires
        approval_gate_spec(intent, None, armed, g),
    ensures
        !(g is RouteApprove) && !(g is RouteReject),
{
}

} // verus!
