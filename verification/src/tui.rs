//! The cockpit's interaction logic: the operator's input line, what each key
//! does to the cockpit, and what the screen shows of it. The terminal, the
//! threads that talk to the backend and the session log stay outside; each
//! step here says which of that outside work comes next.
use vstd::prelude::*;
use crate::backend::BackendCommandResult;
use crate::cli::{BackendChoice, TuiArgs};
use crate::config::AvuConfig;
use crate::domain::{
    ApprovalRequest, BackendKind, CockpitEvent, CockpitMode, CockpitState, EventKind, PermissionPosture, event_view,
    events_view,
};
use crate::runtime::keep_recent_events;
use crate::text::{
    chars_of, compact, compact_chars, concat2, concat3, decimal, decimal_text, eq_chars, eq_str,
    push_char, push_str, starts_with, starts_with_str, string_from_str, string_of,
};
use crate::intent::{
    ApprovalGate, Intent, approval_gate, needs_second_confirmation_spec, parse_intent_spec, parse_intent_with_wake_phrase, wake_separator, wake_strip_defined,
    wake_strip_is_defined,
};
use crate::text::{
    lines, lines_of, slice_chars, views, char_is_ws, lower_chars, lowercase, matches_at_exec, trim,
    trim_chars, trim_set_start, trim_set_start_chars, trim_start, trim_start_chars,
};
use crate::voice_activation::{activation_status, backend_voice_ready};
use crate::gateway::ostr_ref;

verus! {

/// Which kind of text the operator is typing.
#[derive(Debug, Clone, Copy, PartialEq, Eq, Structural)]
pub enum InputMode {
    Picker,
    Command,
    Chat,
    Slash,
}

/// The operator's side of the screen: the input line and its cursor (counted
/// in characters), the status message, how far the activity log is
/// scrolled, and which approval is armed.
#[derive(Debug, Clone)]
pub struct UiOverlay {
    pub input_mode: Option<InputMode>,
    pub input: String,
    pub input_cursor: usize,
    pub message: String,
    pub activity_scroll: usize,
    pub approval_armed_id: Option<String>,
}

impl Default for UiOverlay {
    /// Not typing, empty input, no message, no scroll, nothing armed.
    fn default() -> (r: Self)
        ensures
            r.input_mode is None,
            r.input@.len() == 0,
            r.input_cursor == 0,
            r.message@.len() == 0,
            r.activity_scroll == 0,
            r.approval_armed_id is None,
    {
        UiOverlay {
            input_mode: None,
            input: String::new(),
            input_cursor: 0,
            message: String::new(),
            activity_scroll: 0,
            approval_armed_id: None,
        }
    }
}

/// `s` with `c` put before position `i` (at the end when `i` is past it).
pub open spec fn insert_at(s: Seq<char>, i: int, c: char) -> Seq<char> {
    let p = if i < s.len() {
        i
    } else {
        s.len() as int
    };
    s.take(p) + seq![c] + s.skip(p)
}

impl UiOverlay {
    /// The cursor stands within the input (at most just after its end).
    pub open spec fn cursor_ok(&self) -> bool {
        self.input_cursor <= self.input@.len()
    }

    /// The operator is typing.
    pub fn is_typing(&self) -> (r: bool)
        ensures
            r == self.input_mode is Some,
    {
        self.input_mode.is_some()
    }

    /// Empties the input line.
    pub fn clear_input(&mut self)
        ensures
            final(self).input@.len() == 0,
            final(self).input_cursor == 0,
            final(self).input_mode == old(self).input_mode,
            final(self).message == old(self).message,
            final(self).activity_scroll == old(self).activity_scroll,
            final(self).approval_armed_id == old(self).approval_armed_id,
    {
        self.input = String::new();
        self.input_cursor = 0;
    }

    /// The number of characters typed.
    pub fn input_len(&self) -> (r: usize)
        ensures
            r == self.input@.len(),
    {
        let c = chars_of(self.input.as_str());
        c.len()
    }

    /// Types `ch` at the cursor and moves the cursor past it.
    pub fn insert_char(&mut self, ch: char)
        requires
            old(self).input_cursor < usize::MAX,
        ensures
            final(self).input@ == insert_at(old(self).input@, old(self).input_cursor as int, ch),
            final(self).input_cursor == old(self).input_cursor + 1,
            final(self).input_mode == old(self).input_mode,
            final(self).message == old(self).message,
            final(self).activity_scroll == old(self).activity_scroll,
            final(self).approval_armed_id == old(self).approval_armed_id,
    {
        let mut c = chars_of(self.input.as_str());
        let p = if self.input_cursor < c.len() {
            self.input_cursor
        } else {
            c.len()
        };
        c.insert(p, ch);
        assert(c@ =~= insert_at(old(self).input@, old(self).input_cursor as int, ch));
        self.input = string_of(&c);
        self.input_cursor = self.input_cursor + 1;
    }

    /// Removes the character before the cursor, if there is one.
    pub fn backspace(&mut self)
        requires
            old(self).cursor_ok(),
        ensures
            old(self).input_cursor == 0 ==> final(self).input@ == old(self).input@
                && final(self).input_cursor == 0,
            old(self).input_cursor > 0 ==> final(self).input@ == old(self).input@.remove(
                old(self).input_cursor - 1,
            ) && final(self).input_cursor == old(self).input_cursor - 1,
            final(self).input_mode == old(self).input_mode,
            final(self).message == old(self).message,
            final(self).activity_scroll == old(self).activity_scroll,
            final(self).approval_armed_id == old(self).approval_armed_id,
    {
        if self.input_cursor == 0 {
            return;
        }
        let mut c = chars_of(self.input.as_str());
        c.remove(self.input_cursor - 1);
        self.input = string_of(&c);
        self.input_cursor = self.input_cursor - 1;
    }

    /// Removes the character under the cursor, if there is one.
    pub fn delete(&mut self)
        ensures
            old(self).input_cursor >= old(self).input@.len() ==> final(self).input@ == old(self).input@,
            old(self).input_cursor < old(self).input@.len() ==> final(self).input@ == old(self).input@.remove(old(self).input_cursor as int),
            final(self).input_cursor == old(self).input_cursor,
            final(self).input_mode == old(self).input_mode,
            final(self).message == old(self).message,
            final(self).activity_scroll == old(self).activity_scroll,
            final(self).approval_armed_id == old(self).approval_armed_id,
    {
        let mut c = chars_of(self.input.as_str());
        if self.input_cursor >= c.len() {
            return;
        }
        c.remove(self.input_cursor);
        self.input = string_of(&c);
    }

    /// Moves the cursor one character left, stopping at the start.
    pub fn move_left(&mut self)
        ensures
            final(self).input_cursor == if old(self).input_cursor > 0 {
                old(self).input_cursor - 1
            } else {
                0
            },
            final(self).input == old(self).input,
            final(self).input_mode == old(self).input_mode,
            final(self).message == old(self).message,
            final(self).activity_scroll == old(self).activity_scroll,
            final(self).approval_armed_id == old(self).approval_armed_id,
    {
        if self.input_cursor > 0 {
            self.input_cursor = self.input_cursor - 1;
        }
    }

    /// Moves the cursor one character right, stopping at the end.
    pub fn move_right(&mut self)
        requires
            old(self).input_cursor < usize::MAX,
        ensures
            final(self).input_cursor == if old(self).input_cursor + 1 <= old(self).input@.len() {
                old(self).input_cursor + 1
            } else {
                old(self).input@.len() as int
            },
            final(self).input == old(self).input,
            final(self).input_mode == old(self).input_mode,
            final(self).message == old(self).message,
            final(self).activity_scroll == old(self).activity_scroll,
            final(self).approval_armed_id == old(self).approval_armed_id,
    {
        let len = self.input_len();
        let next = self.input_cursor + 1;
        self.input_cursor = if next <= len {
            next
        } else {
            len
        };
    }

    /// Moves the cursor to the start of the input.
    pub fn move_home(&mut self)
        ensures
            final(self).input_cursor == 0,
            final(self).input == old(self).input,
            final(self).input_mode == old(self).input_mode,
            final(self).message == old(self).message,
            final(self).activity_scroll == old(self).activity_scroll,
            final(self).approval_armed_id == old(self).approval_armed_id,
    {
        self.input_cursor = 0;
    }

    /// Moves the cursor past the end of the input.
    pub fn move_end(&mut self)
        ensures
            final(self).input_cursor == old(self).input@.len(),
            final(self).input == old(self).input,
            final(self).input_mode == old(self).input_mode,
            final(self).message == old(self).message,
            final(self).activity_scroll == old(self).activity_scroll,
            final(self).approval_armed_id == old(self).approval_armed_id,
    {
        self.input_cursor = self.input_len();
    }
}

/// Typing a character and then deleting it with backspace gives back the
/// input and the cursor as they were.
pub proof fn law_insert_then_backspace_restores(s: Seq<char>, cursor: int, ch: char)
    requires
        0 <= cursor <= s.len(),
    ensures
        insert_at(s, cursor, ch).remove(cursor) == s,
{
    assert(insert_at(s, cursor, ch).remove(cursor) =~= s);
}

/// Every editing step keeps the cursor within the input.
pub proof fn law_editing_keeps_cursor_in_input(s: Seq<char>, cursor: int, ch: char)
    requires
        0 <= cursor <= s.len(),
    ensures
        cursor + 1 <= insert_at(s, cursor, ch).len(),
        cursor > 0 ==> cursor - 1 <= s.remove(cursor - 1).len(),
        cursor < s.len() ==> cursor <= s.remove(cursor).len(),
{
}

/// The characters of `s` at positions `start` to `j`, with the cursor mark
/// before the character at the cursor.
pub open spec fn window_body(s: Seq<char>, cursor: int, start: int, j: int) -> Seq<char>
    decreases j - start,
{
    if j <= start {
        Seq::empty()
    } else {
        window_body(s, cursor, start, j - 1) + (if j - 1 == cursor {
            seq!['▌']
        } else {
            Seq::empty()
        }) + seq![s[j - 1]]
    }
}

/// Where the shown window of the input starts: the whole input when it fits,
/// else about half the width before the cursor, and never past the last
/// full window.
pub open spec fn window_start(total: int, cursor: int, width: int) -> int {
    if total <= width {
        0
    } else {
        let a = if cursor > width / 2 {
            cursor - width / 2
        } else {
            0
        };
        if a < total - width {
            a
        } else {
            total - width
        }
    }
}

/// The input line as shown in at most `max_chars` characters: a window
/// around the cursor, the cursor marked `▌`, and `…` where text is hidden.
pub open spec fn visible_input_spec(s: Seq<char>, cursor: int, max_chars: int) -> Seq<char> {
    let total = s.len() as int;
    if total == 0 {
        seq!['▌']
    } else {
        let width = if max_chars > 1 {
            max_chars
        } else {
            1
        };
        let start = window_start(total, cursor, width);
        let end = if start + width < total {
            start + width
        } else {
            total
        };
        (if start > 0 {
            seq!['…']
        } else {
            Seq::empty()
        }) + window_body(s, cursor, start, end) + (if cursor >= end {
            seq!['▌']
        } else {
            Seq::empty()
        }) + (if end < total {
            seq!['…']
        } else {
            Seq::empty()
        })
    }
}

/// How many times `c` occurs in `s`.
pub open spec fn count_char(s: Seq<char>, c: char) -> nat
    decreases s.len(),
{
    if s.len() == 0 {
        0
    } else {
        count_char(s.drop_last(), c) + if s.last() == c {
            1nat
        } else {
            0nat
        }
    }
}

proof fn lemma_count_concat(a: Seq<char>, b: Seq<char>, c: char)
    ensures
        count_char(a + b, c) == count_char(a, c) + count_char(b, c),
    decreases b.len(),
{
    if b.len() == 0 {
        assert(a + b =~= a);
    } else {
        lemma_count_concat(a, b.drop_last(), c);
        assert((a + b).drop_last() =~= a + b.drop_last());
    }
}

proof fn lemma_count_single(x: char, c: char)
    ensures
        count_char(seq![x], c) == if x == c {
            1nat
        } else {
            0nat
        },
{
    assert(seq![x].drop_last() =~= Seq::<char>::empty());
    assert(count_char(Seq::<char>::empty(), c) == 0);
    assert(seq![x].last() == x);
}

proof fn lemma_window_body_marks(s: Seq<char>, cursor: int, start: int, j: int)
    requires
        0 <= start <= j <= s.len(),
        forall|i: int| 0 <= i < s.len() ==> s[i] != '▌',
    ensures
        count_char(window_body(s, cursor, start, j), '▌') == if start <= cursor < j {
            1nat
        } else {
            0nat
        },
    decreases j - start,
{
    if j > start {
        lemma_window_body_marks(s, cursor, start, j - 1);
        let wb = window_body(s, cursor, start, j - 1);
        let mark = if j - 1 == cursor {
            seq!['▌']
        } else {
            Seq::<char>::empty()
        };
        lemma_count_concat(wb, mark, '▌');
        lemma_count_concat(wb + mark, seq![s[j - 1]], '▌');
        lemma_count_single(s[j - 1], '▌');
        lemma_count_single('▌', '▌');
        assert(count_char(Seq::<char>::empty(), '▌') == 0);
    }
}

proof fn lemma_window_body_whole(s: Seq<char>, cursor: int, j: int)
    requires
        0 <= j <= s.len(),
        0 <= cursor,
    ensures
        window_body(s, cursor, 0, j) == if cursor < j {
            s.take(cursor) + seq!['▌'] + s.subrange(cursor, j)
        } else {
            s.take(j)
        },
    decreases j,
{
    if j == 0 {
        assert(s.take(0) =~= Seq::<char>::empty());
    } else {
        lemma_window_body_whole(s, cursor, j - 1);
        if cursor < j - 1 {
            assert(s.take(cursor) + seq!['▌'] + s.subrange(cursor, j - 1) + seq![s[j - 1]]
                =~= s.take(cursor) + seq!['▌'] + s.subrange(cursor, j));
        } else if cursor == j - 1 {
            assert(s.take(j - 1) + seq!['▌'] + seq![s[j - 1]] =~= s.take(cursor) + seq!['▌']
                + s.subrange(cursor, j));
        } else {
            assert(s.take(j - 1) + Seq::<char>::empty() + seq![s[j - 1]] =~= s.take(j));
        }
    }
}

/// The shown input line marks the cursor exactly once (for an input that
/// holds no mark itself); an input that fits is shown whole with the mark
/// at the cursor, and an empty input shows the mark alone.
pub proof fn law_visible_input_marks_cursor(s: Seq<char>, cursor: int, max_chars: int)
    requires
        0 <= cursor <= s.len(),
        forall|i: int| 0 <= i < s.len() ==> s[i] != '▌',
    ensures
        count_char(visible_input_spec(s, cursor, max_chars), '▌') == 1,
        s.len() == 0 ==> visible_input_spec(s, cursor, max_chars) == seq!['▌'],
        0 < s.len() <= (if max_chars > 1 {
            max_chars
        } else {
            1
        }) ==> visible_input_spec(s, cursor, max_chars) == s.take(cursor) + seq!['▌'] + s.skip(
            cursor,
        ),
{
    let total = s.len() as int;
    if total == 0 {
        lemma_count_single('▌', '▌');
    } else {
        let width = if max_chars > 1 {
            max_chars
        } else {
            1
        };
        let start = window_start(total, cursor, width);
        let end = if start + width < total {
            start + width
        } else {
            total
        };
        let pre = if start > 0 {
            seq!['…']
        } else {
            Seq::<char>::empty()
        };
        let wb = window_body(s, cursor, start, end);
        let mark = if cursor >= end {
            seq!['▌']
        } else {
            Seq::<char>::empty()
        };
        let post = if end < total {
            seq!['…']
        } else {
            Seq::<char>::empty()
        };
        assert(0 <= start <= cursor);
        assert(start <= end <= total);
        lemma_window_body_marks(s, cursor, start, end);
        lemma_count_concat(pre, wb, '▌');
        lemma_count_concat(pre + wb, mark, '▌');
        lemma_count_concat(pre + wb + mark, post, '▌');
        lemma_count_single('…', '▌');
        lemma_count_single('▌', '▌');
        assert(count_char(Seq::<char>::empty(), '▌') == 0);
        if total <= width {
            lemma_window_body_whole(s, cursor, total);
            assert(s.subrange(cursor, total) =~= s.skip(cursor));
            if cursor < total {
                assert(visible_input_spec(s, cursor, max_chars) =~= s.take(cursor) + seq!['▌']
                    + s.skip(cursor));
            } else {
                assert(s.take(total) =~= s.take(cursor));
                assert(s.skip(cursor) =~= Seq::<char>::empty());
                assert(visible_input_spec(s, cursor, max_chars) =~= s.take(cursor) + seq!['▌']
                    + s.skip(cursor));
            }
        }
    }
}

impl UiOverlay {
    /// The input line as shown in at most `max_chars` characters.
    pub fn visible_input_with_cursor(&self, max_chars: usize) -> (r: String)
        ensures
            r@ == visible_input_spec(self.input@, self.input_cursor as int, max_chars as int),
    {
        let c = chars_of(self.input.as_str());
        let total = c.len();
        if total == 0 {
            let mut r = String::new();
            push_char(&mut r, '▌');
            assert(r@ =~= seq!['▌']);
            return r;
        }
        let width: usize = if max_chars > 1 {
            max_chars
        } else {
            1
        };
        let half = width / 2;
        let start: usize = if total <= width {
            0
        } else {
            let a = if self.input_cursor > half {
                self.input_cursor - half
            } else {
                0
            };
            if a < total - width {
                a
            } else {
                total - width
            }
        };
        let end: usize = if total - start > width {
            start + width
        } else {
            total
        };
        let mut out = String::new();
        if start > 0 {
            push_char(&mut out, '…');
        }
        let ghost head = out@;
        let mut i: usize = start;
        while i < end
            invariant
                start <= i <= end <= total,
                total == c@.len(),
                c@ == self.input@,
                out@ == head + window_body(c@, self.input_cursor as int, start as int, i as int),
            decreases end - i,
        {
            if i == self.input_cursor {
                push_char(&mut out, '▌');
            }
            push_char(&mut out, c[i]);
            proof {
                let b = window_body(c@, self.input_cursor as int, start as int, i as int);
                if i == self.input_cursor {
                    assert(out@ =~= head + (b + seq!['▌'] + seq![c@[i as int]]));
                } else {
                    assert(out@ =~= head + (b + Seq::<char>::empty() + seq![c@[i as int]]));
                }
            }
            i += 1;
        }
        if self.input_cursor >= end {
            push_char(&mut out, '▌');
        }
        if end < total {
            push_char(&mut out, '…');
        }
        assert(out@ =~= visible_input_spec(self.input@, self.input_cursor as int, max_chars as int));
        out
    }
}

/// The input part of the footer: the picker's choices, or the mode with the
/// cursor position, the input length and the shown input line; when not
/// typing, the status message or a hint.
pub open spec fn footer_spec(o: UiOverlay) -> Seq<char> {
    let pos = decimal(o.input_cursor as nat) + "/"@ + decimal(o.input@.len());
    let shown = visible_input_spec(o.input@, o.input_cursor as int, 64);
    match o.input_mode {
        Some(InputMode::Picker) => "  │ INPUT: [c] CMD  [t] Chat  [/] Slash  [Esc] cancel"@,
        Some(InputMode::Command) => "  │ CMD["@ + pos + "]: "@ + shown,
        Some(InputMode::Chat) => "  │ Chat["@ + pos + "]: "@ + shown,
        Some(InputMode::Slash) => "  │ Slash["@ + pos + "]: /"@ + shown,
        None => if o.message@.len() == 0 {
            "  │ PRESS : for CMD/Chat"@
        } else {
            "  │ "@ + o.message@
        },
    }
}

/// The input part of the footer.
pub fn footer_command_text(overlay: &UiOverlay) -> (r: String)
    ensures
        r@ == footer_spec(*overlay),
{
    match overlay.input_mode {
        Some(InputMode::Picker) => string_from_str(
            "  │ INPUT: [c] CMD  [t] Chat  [/] Slash  [Esc] cancel",
        ),
        Some(mode) => {
            let mut out = match mode {
                InputMode::Command => string_from_str("  │ CMD["),
                InputMode::Chat => string_from_str("  │ Chat["),
                _ => string_from_str("  │ Slash["),
            };
            let cur = decimal_text(overlay.input_cursor);
            push_str(&mut out, cur.as_str());
            push_str(&mut out, "/");
            let len = decimal_text(overlay.input_len());
            push_str(&mut out, len.as_str());
            match mode {
                InputMode::Slash => push_str(&mut out, "]: /"),
                _ => push_str(&mut out, "]: "),
            }
            let shown = overlay.visible_input_with_cursor(64);
            push_str(&mut out, shown.as_str());
            out
        },
        None => {
            let mc = chars_of(overlay.message.as_str());
            if mc.len() == 0 {
                string_from_str("  │ PRESS : for CMD/Chat")
            } else {
                let mut out = string_from_str("  │ ");
                push_str(&mut out, overlay.message.as_str());
                out
            }
        },
    }
}

/// A label that the operator's own actions wrote into the activity log.
pub open spec fn operator_label(l: Seq<char>) -> bool {
    starts_with(l, "cmd: "@) || starts_with(l, "backend: "@) || starts_with(l, "backend-cli: "@)
        || starts_with(l, "voice: "@) || starts_with(l, "ready: "@) || starts_with(l, "sending: "@)
        || starts_with(l, "Avu session "@)
}

/// Whether an activity label came from the operator's own actions.
pub fn is_operator_event(label: &str) -> (r: bool)
    ensures
        r == operator_label(label@),
{
    let c = chars_of(label);
    starts_with_str(&c, "cmd: ") || starts_with_str(&c, "backend: ") || starts_with_str(
        &c,
        "backend-cli: ",
    ) || starts_with_str(&c, "voice: ") || starts_with_str(&c, "ready: ") || starts_with_str(
        &c,
        "sending: ",
    ) || starts_with_str(&c, "Avu session ")
}

/// An event kind that shows the backend busy with a turn.
pub open spec fn active_kind(k: EventKind) -> bool {
    k == EventKind::Processing || k == EventKind::ToolStart || k == EventKind::ApprovalRequested
        || k == EventKind::ApprovalRouted || k == EventKind::Speaking
}

/// Whether an event shows the backend busy with a turn.
pub fn is_active_backend_event(event: &CockpitEvent) -> (r: bool)
    ensures
        r == active_kind(event.kind),
{
    match event.kind {
        EventKind::Processing | EventKind::ToolStart | EventKind::ApprovalRequested
        | EventKind::ApprovalRouted | EventKind::Speaking => true,
        _ => false,
    }
}

/// Some event among `evs` shows the backend busy.
pub open spec fn any_active(evs: Seq<CockpitEvent>) -> bool {
    exists|i: int| 0 <= i < evs.len() && active_kind(#[trigger] evs[i].kind)
}

/// The operator's events among `evs` that a refresh carries over, in order:
/// a stale `ready:` line is dropped while the backend reports activity.
pub open spec fn carried_events(evs: Seq<CockpitEvent>, active: bool) -> Seq<CockpitEvent>
    decreases evs.len(),
{
    if evs.len() == 0 {
        Seq::empty()
    } else {
        let rest = carried_events(evs.drop_last(), active);
        let e = evs.last();
        if operator_label(e.label@) && !(active && starts_with(e.label@, "ready: "@)) {
            rest.push(e)
        } else {
            rest
        }
    }
}

/// The most events a cockpit state keeps.
pub open spec fn retention_limit(visible_limit: int) -> int {
    if visible_limit > 200 {
        visible_limit
    } else {
        200
    }
}

/// The last `limit` of `evs`, or all of them when there are fewer.
pub open spec fn keep_last(evs: Seq<CockpitEvent>, limit: int) -> Seq<CockpitEvent> {
    if evs.len() > limit {
        evs.skip(evs.len() - limit)
    } else {
        evs
    }
}

/// Two states agree on everything but their events.
pub open spec fn same_but_events(a: CockpitState, b: CockpitState) -> bool {
    &&& a.app_name == b.app_name
    &&& a.mode == b.mode
    &&& a.backend == b.backend
    &&& a.backend_label == b.backend_label
    &&& a.model_label == b.model_label
    &&& a.voice_label == b.voice_label
    &&& a.tools_active == b.tools_active
    &&& a.cpu_percent == b.cpu_percent
    &&& a.memory_percent == b.memory_percent
    &&& a.capabilities == b.capabilities
    &&& a.modules == b.modules
    &&& a.pending_approval == b.pending_approval
}

/// Keeps the state's most recent events: at least 200 of them, or
/// `visible_limit` when that is more.
pub fn keep_recent_state_events(state: &mut CockpitState, visible_limit: usize)
    ensures
        final(state).events@ == keep_last(old(state).events@, retention_limit(visible_limit as int)),
        same_but_events(*final(state), *old(state)),
{
    let limit: usize = if visible_limit > 200 {
        visible_limit
    } else {
        200
    };
    keep_recent_events(&mut state.events, limit);
}

/// Takes a freshly read state from the backend: the operator's own events
/// are carried over after the backend's (without a stale `ready:` line while
/// the backend reports activity), and the most recent events are kept.
pub fn apply_refreshed_state(state: &mut CockpitState, refreshed: CockpitState)
    ensures
        same_but_events(*final(state), refreshed),
        final(state).events@ == keep_last(
            refreshed.events@ + carried_events(old(state).events@, any_active(refreshed.events@)),
            200,
        ),
{
    let mut refreshed = refreshed;
    let ghost fresh = refreshed.events@;
    let mut active = false;
    let mut i: usize = 0;
    while i < refreshed.events.len()
        invariant
            i <= refreshed.events.len(),
            refreshed.events@ == fresh,
            active == exists|j: int| 0 <= j < i && active_kind(#[trigger] fresh[j].kind),
        decreases refreshed.events.len() - i,
    {
        if is_active_backend_event(&refreshed.events[i]) {
            active = true;
        }
        i += 1;
    }
    let mut old_events: Vec<CockpitEvent> = Vec::new();
    std::mem::swap(&mut old_events, &mut state.events);
    let ghost orig = old_events@;
    let n = old_events.len();
    let mut local: Vec<CockpitEvent> = Vec::new();
    let mut k: usize = 0;
    while old_events.len() > 0
        invariant
            n == orig.len(),
            k + old_events@.len() == orig.len(),
            old_events@ == orig.skip(k as int),
            local@ == carried_events(orig.take(k as int), active),
        decreases old_events@.len(),
    {
        let e = old_events.remove(0);
        proof {
            assert(orig.take(k + 1).drop_last() =~= orig.take(k as int));
            assert(orig.take(k + 1).last() == e);
            assert(old_events@ =~= orig.skip(k + 1));
        }
        let keep = is_operator_event(e.label.as_str()) && !(active && starts_with_str(
            &chars_of(e.label.as_str()),
            "ready: ",
        ));
        if keep {
            local.push(e);
        }
        k += 1;
    }
    proof {
        assert(orig.take(k as int) =~= orig);
    }
    refreshed.events.append(&mut local);
    keep_recent_state_events(&mut refreshed, 12);
    *state = refreshed;
}

/// Writes an event of the operator's into the activity log.
pub fn push_operator_event(state: &mut CockpitState, kind: EventKind, label: &str)
    ensures
        same_but_events(*final(state), *old(state)),
        final(state).events@.len() == old(state).events@.len() + 1,
        final(state).events@.drop_last() == old(state).events@,
        event_view(final(state).events@.last()) == (kind, label@),
{
    state.events.push(CockpitEvent::now(kind, label));
    assert(state.events@.drop_last() =~= old(state).events@);
}

/// The backend that a backend choice names, where it names one.
pub open spec fn chosen_kind(choice: BackendChoice, state_backend: BackendKind) -> BackendKind {
    match choice {
        BackendChoice::Hermes => BackendKind::Hermes,
        BackendChoice::Openclaw => BackendKind::OpenClaw,
        BackendChoice::Fake => BackendKind::Fake,
        BackendChoice::Auto => state_backend,
        BackendChoice::Remote => BackendKind::Remote,
    }
}

/// Approval responses may be routed only to a live backend (no fixture)
/// whose posture allows it, for an approval that this backend raised and
/// that matches the backend the operator chose.
pub open spec fn can_route_spec(state: CockpitState, args: TuiArgs) -> bool {
    &&& args.fixture is None
    &&& state.capabilities.permission_posture == PermissionPosture::RouteApprovalResponses
    &&& state.pending_approval matches Some(a)
    &&& state.backend == a.backend
    &&& a.backend == chosen_kind(args.backend, state.backend)
}

/// Whether approval responses may be routed for the pending approval.
pub fn can_route_approval(state: &CockpitState, args: &TuiArgs) -> (r: bool)
    ensures
        r == can_route_spec(*state, *args),
{
    if args.fixture.is_some() {
        return false;
    }
    match state.capabilities.permission_posture {
        PermissionPosture::RouteApprovalResponses => {},
        _ => {
            return false;
        },
    }
    let approval = match &state.pending_approval {
        Some(a) => a,
        None => {
            return false;
        },
    };
    if state.backend != approval.backend {
        return false;
    }
    match args.backend {
        BackendChoice::Hermes => approval.backend == BackendKind::Hermes,
        BackendChoice::Openclaw => approval.backend == BackendKind::OpenClaw,
        BackendChoice::Fake => approval.backend == BackendKind::Fake,
        BackendChoice::Auto => approval.backend == state.backend,
        BackendChoice::Remote => approval.backend == BackendKind::Remote,
    }
}

/// The overlay agrees with `o` on everything but its message and the armed
/// approval.
pub open spec fn same_input(a: UiOverlay, b: UiOverlay) -> bool {
    &&& a.input_mode == b.input_mode
    &&& a.input == b.input
    &&& a.input_cursor == b.input_cursor
    &&& a.activity_scroll == b.activity_scroll
}

/// The view of an optional approval id.
pub open spec fn armed_view(o: Option<String>) -> Option<Seq<char>> {
    match o {
        Some(s) => Some(s@),
        None => None,
    }
}

/// Arms the pending approval for confirmation, where it may be routed.
pub fn arm_approval(state: &CockpitState, args: &TuiArgs, overlay: &mut UiOverlay)
    ensures
        same_input(*final(overlay), *old(overlay)),
        state.pending_approval is None ==> final(overlay).message@ == "no pending backend approval"@
            && final(overlay).approval_armed_id == old(overlay).approval_armed_id,
        state.pending_approval is Some && !can_route_spec(*state, *args) ==> final(overlay).message@ == "approval is observe-only for this backend"@ && final(overlay).approval_armed_id is None,
        state.pending_approval is Some && can_route_spec(*state, *args) ==> final(overlay).message@ == "approval armed; press A to confirm or r to reject"@ && armed_view(
            final(overlay).approval_armed_id,
        ) == Some(state.pending_approval->0.id@),
{
    let approval = match &state.pending_approval {
        Some(a) => a,
        None => {
            overlay.message = string_from_str("no pending backend approval");
            return ;
        },
    };
    if !can_route_approval(state, args) {
        overlay.approval_armed_id = None;
        overlay.message = string_from_str("approval is observe-only for this backend");
        return ;
    }
    overlay.approval_armed_id = Some(string_from_str(approval.id.as_str()));
    overlay.message = string_from_str("approval armed; press A to confirm or r to reject");
}

/// What routing an approval response does, given whether a response was
/// armed for the pending approval.
pub enum ApprovalOutcome {
    NoPending,
    ObserveOnly,
    NeedsArming,
    Busy,
    Routed,
}

/// Which way an approval response goes.
pub open spec fn approval_outcome_spec(
    state: CockpitState,
    args: TuiArgs,
    armed: Option<Seq<char>>,
    prompt_inflight: bool,
    decision: Seq<char>,
) -> ApprovalOutcome {
    if state.pending_approval is None {
        ApprovalOutcome::NoPending
    } else if !can_route_spec(state, args) {
        ApprovalOutcome::ObserveOnly
    } else if decision == "approve"@ && armed != Some(state.pending_approval->0.id@) {
        ApprovalOutcome::NeedsArming
    } else if prompt_inflight {
        ApprovalOutcome::Busy
    } else {
        ApprovalOutcome::Routed
    }
}

/// Routes the operator's `approve` or `reject` to the backend: only for a
/// routable pending approval, an approval only once armed, and never while
/// a prompt is running. Returns the prompt to send, which the caller hands
/// to the backend.
pub fn route_approval_response(
    state: &mut CockpitState,
    args: &TuiArgs,
    overlay: &mut UiOverlay,
    prompt_inflight: &mut bool,
    decision: &str,
) -> (r: Option<String>)
    ensures
        same_input(*final(overlay), *old(overlay)),
        ({
            let outcome = approval_outcome_spec(
                *old(state),
                *args,
                armed_view(old(overlay).approval_armed_id),
                *old(prompt_inflight),
                decision@,
            );
            &&& !(outcome is Routed) ==> r is None && *final(state) == *old(state) && *final(prompt_inflight) == *old(prompt_inflight) && final(overlay).approval_armed_id == old(overlay).approval_armed_id
            &&& outcome is NoPending ==> final(overlay).message@ == "no pending backend approval"@
            &&& outcome is ObserveOnly ==> final(overlay).message@
                == "approval is observe-only for this backend"@
            &&& outcome is NeedsArming ==> final(overlay).message@
                == "approval requires arming first with a"@
            &&& outcome is Busy ==> final(overlay).message@
                == "backend still running; approval response preserved"@
            &&& outcome is Routed ==> {
                let id = old(state).pending_approval->0.id@;
                &&& r matches Some(p) && p@ == "/"@ + decision@ + " "@ + id
                &&& *final(prompt_inflight)
                &&& final(state).pending_approval is None
                &&& final(overlay).approval_armed_id is None
                &&& final(overlay).message@ == "approval "@ + decision@ + " routed to backend"@
                &&& final(state).events@.drop_last() == old(state).events@
                &&& event_view(final(state).events@.last()) == (
                    EventKind::ApprovalRouted,
                    "approval routed: "@ + decision@ + " "@ + id,
                )
            }
        }),
{
    let id = match &state.pending_approval {
        Some(a) => string_from_str(a.id.as_str()),
        None => {
            overlay.message = string_from_str("no pending backend approval");
            return None;
        },
    };
    if !can_route_approval(state, args) {
        overlay.message = string_from_str("approval is observe-only for this backend");
        return None;
    }
    let dc = chars_of(decision);
    if eq_str(&dc, "approve") {
        let armed_matches = match &overlay.approval_armed_id {
            Some(a) => {
                let ac = chars_of(a.as_str());
                let ic = chars_of(id.as_str());
                eq_chars(&ac, &ic)
            },
            None => false,
        };
        if !armed_matches {
            overlay.message = string_from_str("approval requires arming first with a");
            return None;
        }
    }
    if *prompt_inflight {
        overlay.message = string_from_str("backend still running; approval response preserved");
        return None;
    }
    let prompt = concat4_owned("/", decision, " ", id.as_str());
    let label = concat4_owned("approval routed: ", decision, " ", id.as_str());
    push_operator_event(state, EventKind::ApprovalRouted, label.as_str());
    state.pending_approval = None;
    overlay.approval_armed_id = None;
    overlay.message = concat3("approval ", decision, " routed to backend");
    *prompt_inflight = true;
    Some(prompt)
}

fn concat4_owned(a: &str, b: &str, c: &str, d: &str) -> (r: String)
    ensures
        r@ == a@ + b@ + c@ + d@,
{
    crate::text::concat4(a, b, c, d)
}

/// The events a finished prompt adds to the log: each reported progress
/// event (or the summary when none), then `ready:` when it succeeded.
pub open spec fn prompt_result_events(result: BackendCommandResult) -> Seq<(EventKind, Seq<char>)> {
    let kind = if result.ok {
        EventKind::ResponseStream
    } else {
        EventKind::Warning
    };
    let reported = if result.events@.len() == 0 {
        seq![(kind, "backend: "@ + result.summary@)]
    } else {
        result.events@.map_values(|e: crate::backend::BackendCommandEvent| (e.kind, "backend: "@ + e.label@))
    };
    if result.ok {
        reported.push((EventKind::Listening, "ready: listening for next turn"@))
    } else {
        reported
    }
}

/// Logs what a finished prompt reported and notes it in the status line.
pub fn apply_prompt_result(state: &mut CockpitState, overlay: &mut UiOverlay, result: BackendCommandResult)
    ensures
        same_but_events(*final(state), *old(state)),
        events_view(final(state).events@) == events_view(old(state).events@) + prompt_result_events(result),
        final(state).events@.len() >= old(state).events@.len(),
        final(state).events@.subrange(0, old(state).events@.len() as int) == old(state).events@,
        same_input(*final(overlay), *old(overlay)),
        final(overlay).approval_armed_id == old(overlay).approval_armed_id,
        final(overlay).message@ == (if result.ok {
            "backend replied: "@
        } else {
            "backend failed: "@
        }) + compact(result.summary@, 48),
{
    let kind = if result.ok {
        EventKind::ResponseStream
    } else {
        EventKind::Warning
    };
    let ghost start = events_view(state.events@);
    let ghost olds = state.events@;
    if result.events.len() == 0 {
        let label = concat2("backend: ", result.summary.as_str());
        push_operator_event(state, kind, label.as_str());
        proof {
            assert(events_view(state.events@) =~= start + seq![(kind, "backend: "@ + result.summary@)]);
            assert(state.events@.subrange(0, olds.len() as int) =~= olds);
        }
    } else {
        let ghost all = result.events@.map_values(|e: crate::backend::BackendCommandEvent| (e.kind, "backend: "@ + e.label@));
        let mut i: usize = 0;
        while i < result.events.len()
            invariant
                i <= result.events.len(),
                all == result.events@.map_values(|e: crate::backend::BackendCommandEvent| (e.kind, "backend: "@ + e.label@)),
                same_but_events(*state, *old(state)),
                events_view(state.events@) == start + all.take(i as int),
                state.events@.len() >= olds.len(),
                state.events@.subrange(0, olds.len() as int) == olds,
            decreases result.events.len() - i,
        {
            let label = concat2("backend: ", result.events[i].label.as_str());
            let ghost before = state.events@;
            push_operator_event(state, result.events[i].kind, label.as_str());
            proof {
                assert(state.events@ =~= before.push(state.events@.last()));
                assert(state.events@.subrange(0, olds.len() as int) =~= before.subrange(
                    0,
                    olds.len() as int,
                ));
                assert(all.take(i + 1) =~= all.take(i as int).push(all[i as int]));
                assert(events_view(state.events@) =~= events_view(before).push(
                    event_view(state.events@.last()),
                ));
            }
            i += 1;
        }
        proof {
            assert(all.take(result.events.len() as int) =~= all);
        }
    }
    if result.ok {
        let ghost before = state.events@;
        push_operator_event(state, EventKind::Listening, "ready: listening for next turn");
        proof {
            assert(state.events@ =~= before.push(state.events@.last()));
            assert(state.events@.subrange(0, olds.len() as int) =~= before.subrange(
                0,
                olds.len() as int,
            ));
            assert(events_view(state.events@) =~= events_view(before).push(
                event_view(state.events@.last()),
            ));
        }
    }
    let sc = chars_of(result.summary.as_str());
    let short = compact_chars(&sc, 48);
    overlay.message = if result.ok {
        concat2("backend replied: ", string_of(&short).as_str())
    } else {
        concat2("backend failed: ", string_of(&short).as_str())
    };
}

/// Whether arming the keyboard wake reads Hermes' own voice configuration:
/// only for a Hermes backend.
pub fn keyboard_wake_reads_backend_config(state: &CockpitState) -> (r: bool)
    ensures
        r == (state.backend == BackendKind::Hermes),
{
    match state.backend {
        BackendKind::Hermes => true,
        _ => false,
    }
}

/// Arms keyboard wake activation: logs the wake phrase and notes whether the
/// backend's voice is ready, from Avu's configuration and the backend's own
/// voice configuration.
pub fn arm_keyboard_wake_with_backend_voice_config(
    state: &mut CockpitState,
    overlay: &mut UiOverlay,
    avu_config: &AvuConfig,
    backend_voice_config: Option<&str>,
)
    ensures
        same_but_events(*final(state), *old(state)),
        final(state).events@.drop_last() == old(state).events@,
        event_view(final(state).events@.last()) == (
            EventKind::Listening,
            "wake: armed keyboard activation for `"@ + avu_config.wake_phrase@
                + "`; say/type wake-prefixed commands or press Ctrl+B for backend voice"@,
        ),
        same_input(*final(overlay), *old(overlay)),
        final(overlay).approval_armed_id == old(overlay).approval_armed_id,
        final(overlay).message@ == "wake armed: "@ + avu_config.wake_phrase@ + if backend_voice_ready(
            ostr_ref(backend_voice_config),
        ) {
            " · backend voice ready"@
        } else {
            " · verify backend voice with Ctrl+B"@
        },
{
    let status = activation_status(avu_config, state.backend_label.as_str(), backend_voice_config);
    let label = concat3(
        "wake: armed keyboard activation for `",
        status.wake_phrase.as_str(),
        "`; say/type wake-prefixed commands or press Ctrl+B for backend voice",
    );
    push_operator_event(state, EventKind::Listening, label.as_str());
    overlay.message = if status.backend_voice_available {
        concat3("wake armed: ", status.wake_phrase.as_str(), " · backend voice ready")
    } else {
        concat3("wake armed: ", status.wake_phrase.as_str(), " · verify backend voice with Ctrl+B")
    };
}

/// How busy the backend looks, from 0 to 100, for the radar's pulse.
pub open spec fn activity_spec(state: CockpitState) -> u8 {
    if state.pending_approval is Some {
        95
    } else {
        match state.mode {
            CockpitMode::Disconnected => 0,
            CockpitMode::Error => 15,
            CockpitMode::Idle => 25,
            CockpitMode::ToolActive | CockpitMode::Processing => 80,
            CockpitMode::ApprovalNeeded => 95,
            CockpitMode::Listening | CockpitMode::WakeDetected | CockpitMode::Speaking => 70,
        }
    }
}

/// How busy the backend looks, from 0 to 100.
pub fn backend_activity(state: &CockpitState) -> (r: u8)
    ensures
        r == activity_spec(*state),
        r <= 100,
{
    if state.pending_approval.is_some() {
        return 95;
    }
    match state.mode {
        CockpitMode::Disconnected => 0,
        CockpitMode::Error => 15,
        CockpitMode::Idle => 25,
        CockpitMode::ToolActive | CockpitMode::Processing => 80,
        CockpitMode::ApprovalNeeded => 95,
        CockpitMode::Listening | CockpitMode::WakeDetected | CockpitMode::Speaking => 70,
    }
}

/// The prompt begins (after leading whitespace, case-insensitively) with
/// the trimmed wake phrase, followed by its end or a separator.
pub open spec fn wake_prefixed_spec(prompt: Seq<char>, wake: Seq<char>) -> bool {
    let lower = lowercase(trim_start(prompt));
    let phrase = lowercase(trim(wake));
    &&& phrase.len() > 0
    &&& starts_with(lower, phrase)
    &&& (lower.len() == phrase.len() || wake_separator(lower[phrase.len() as int]))
}

/// Whether the prompt is addressed to Avu by its wake phrase.
pub fn is_wake_prefixed(prompt: &str, wake_phrase: &str) -> (r: bool)
    ensures
        r == wake_prefixed_spec(prompt@, wake_phrase@),
{
    let pc = chars_of(prompt);
    let ts = trim_start_chars(&pc);
    let lower = lower_chars(&ts);
    let wc = chars_of(wake_phrase);
    let tw = trim_chars(&wc);
    let phrase = lower_chars(&tw);
    if phrase.len() == 0 {
        return false;
    }
    if phrase.len() > lower.len() || !matches_at_exec(&lower, &phrase, 0) {
        return false;
    }
    if lower.len() == phrase.len() {
        return true;
    }
    let c = lower[phrase.len()];
    char_is_ws(c) || c == ',' || c == '.' || c == ':' || c == ';' || c == '!' || c == '?'
}

/// How an intent is named in the activity log, as `Debug` writes it.
pub open spec fn intent_name(i: Intent) -> Seq<char> {
    match i {
        Intent::Status => "Status"@,
        Intent::ListSessions => "ListSessions"@,
        Intent::Pause => "Pause"@,
        Intent::Resume => "Resume"@,
        Intent::Interrupt => "Interrupt"@,
        Intent::Approve => "Approve"@,
        Intent::Reject => "Reject"@,
        Intent::ConfirmApprove => "ConfirmApprove"@,
        Intent::SwitchSession(n) => "SwitchSession("@ + decimal(n as nat) + ")"@,
        Intent::Mute => "Mute"@,
        Intent::Unknown(s) => "Unknown(\""@ + s@ + "\")"@,
    }
}

fn intent_name_exec(i: &Intent) -> (r: String)
    requires
        !(i is Unknown),
    ensures
        r@ == intent_name(*i),
{
    match i {
        Intent::Status => string_from_str("Status"),
        Intent::ListSessions => string_from_str("ListSessions"),
        Intent::Pause => string_from_str("Pause"),
        Intent::Resume => string_from_str("Resume"),
        Intent::Interrupt => string_from_str("Interrupt"),
        Intent::Approve => string_from_str("Approve"),
        Intent::Reject => string_from_str("Reject"),
        Intent::ConfirmApprove => string_from_str("ConfirmApprove"),
        Intent::SwitchSession(n) => {
            let d = decimal_text(*n as usize);
            concat3("SwitchSession(", d.as_str(), ")")
        },
        Intent::Mute => string_from_str("Mute"),
        Intent::Unknown(_) => string_from_str(""),
    }
}

/// What a key asks of the outside world once the cockpit has been updated.
pub enum UiAction {
    /// Nothing; keep going.
    Continue,
    /// Leave the cockpit.
    Quit,
    /// Send this prompt to the backend in the background.
    SendPrompt(String),
    /// Run this shell command, then report it with `apply_shell_result`.
    RunShell(String),
    /// Read the backend's state now, take it with `apply_refreshed_state`,
    /// then finish with `finish_refresh`.
    Refresh(AfterRefresh),
    /// Read the backend's state in the background.
    SpawnRefresh,
    /// Hand the terminal to the backend's voice session, then read the
    /// backend's state and finish with `finish_voice_handoff`.
    VoiceHandoff,
    /// Read the configuration and arm the keyboard wake with
    /// `arm_keyboard_wake_with_backend_voice_config`.
    ArmWake,
}

/// What follows a refresh that a key asked for.
#[derive(Debug, Clone, Copy, PartialEq, Eq, Structural)]
pub enum AfterRefresh {
    /// The picker's status key: leave the picker.
    PickerStatus,
    /// The wake phrase's status intent: note it in the log.
    WakeStatus,
}

/// The spoken or typed command that a wake-prefixed prompt carries, once
/// the wake phrase is parsed away.
pub open spec fn wake_intent_of(prompt: Seq<char>, wake: Seq<char>, i: Intent) -> bool {
    parse_intent_spec(prompt, wake, i)
}

/// The label logged for a wake intent that Avu does not route.
pub open spec fn unrouted_label(i: Intent) -> Seq<char> {
    "wake intent: "@ + intent_name(i) + " is not routed by Avu yet"@
}

/// The label logged for a wake command that is not a control command.
pub open spec fn ignored_label(command: Seq<char>) -> Seq<char> {
    "wake intent ignored: `"@ + compact(command, 48) + "` is not a safe Avu control command"@
}

/// Handles a prompt addressed to Avu by its wake phrase as a control intent;
/// nothing else is sent to the backend from here. Returns `None` when the
/// prompt is not wake-prefixed (and then changes nothing).
pub fn handle_wake_intent(
    state: &mut CockpitState,
    overlay: &mut UiOverlay,
    prompt: &str,
    args: &TuiArgs,
    prompt_inflight: &mut bool,
    wake_phrase: &str,
) -> (r: Option<UiAction>)
    requires
        wake_prefixed_spec(prompt@, wake_phrase@) ==> wake_strip_defined(trim(prompt@), wake_phrase@),
    ensures
        !wake_prefixed_spec(prompt@, wake_phrase@) ==> r is None && *final(state) == *old(state)
            && *final(overlay) == *old(overlay) && *final(prompt_inflight) == *old(prompt_inflight),
        wake_prefixed_spec(prompt@, wake_phrase@) ==> r is Some && final(overlay).input@.len() == 0
            && final(overlay).input_cursor == 0 && final(overlay).input_mode == old(overlay).input_mode
            && exists|i: Intent| #[trigger] wake_intent_of(prompt@, wake_phrase@, i) && wake_effect(
                i,
                *old(state),
                *args,
                *old(overlay),
                *old(prompt_inflight),
                *final(state),
                *final(overlay),
                *final(prompt_inflight),
                r->0,
            ),
{
    if !is_wake_prefixed(prompt, wake_phrase) {
        return None;
    }
    let parsed = parse_intent_with_wake_phrase(prompt, wake_phrase);
    overlay.clear_input();
    let action = match &parsed {
        Intent::Status => UiAction::Refresh(AfterRefresh::WakeStatus),
        Intent::Interrupt => {
            push_operator_event(
                state,
                EventKind::Warning,
                "wake intent: interrupt requested; backend control routing not enabled yet",
            );
            overlay.message = string_from_str(
                "wake intent: interrupt noted; backend routing not enabled",
            );
            UiAction::Continue
        },
        Intent::Approve => {
            arm_approval(state, args, overlay);
            UiAction::Continue
        },
        Intent::ConfirmApprove => {
            match &state.pending_approval {
                Some(a) => {
                    overlay.approval_armed_id = Some(string_from_str(a.id.as_str()));
                },
                None => {},
            }
            match route_approval_response(state, args, overlay, prompt_inflight, "approve") {
                Some(p) => UiAction::SendPrompt(p),
                None => UiAction::Continue,
            }
        },
        Intent::Reject => {
            match route_approval_response(state, args, overlay, prompt_inflight, "reject") {
                Some(p) => UiAction::SendPrompt(p),
                None => UiAction::Continue,
            }
        },
        Intent::Unknown(command) => {
            let cc = chars_of(command.as_str());
            let short = compact_chars(&cc, 48);
            let label = concat3(
                "wake intent ignored: `",
                string_of(&short).as_str(),
                "` is not a safe Avu control command",
            );
            push_operator_event(state, EventKind::Warning, label.as_str());
            let lc = chars_of(label.as_str());
            overlay.message = string_of(&compact_chars(&lc, 72));
            UiAction::Continue
        },
        _ => {
            let name = intent_name_exec(&parsed);
            let label = concat3("wake intent: ", name.as_str(), " is not routed by Avu yet");
            push_operator_event(state, EventKind::Warning, label.as_str());
            let lc = chars_of(label.as_str());
            overlay.message = string_of(&compact_chars(&lc, 72));
            UiAction::Continue
        },
    };
    proof {
        assert(wake_intent_of(prompt@, wake_phrase@, parsed));
    }
    Some(action)
}

/// What a wake intent does: each intent's effect on the cockpit, the
/// overlay (whose input is emptied first) and the running prompt, and the
/// action it asks for.
pub open spec fn wake_effect(
    i: Intent,
    s0: CockpitState,
    args: TuiArgs,
    o0: UiOverlay,
    busy0: bool,
    s1: CockpitState,
    o1: UiOverlay,
    busy1: bool,
    action: UiAction,
) -> bool {
    match i {
        Intent::Status => action matches UiAction::Refresh(AfterRefresh::WakeStatus) && s1 == s0
            && o1.message == o0.message && o1.approval_armed_id == o0.approval_armed_id
            && busy1 == busy0,
        Intent::Interrupt => action is Continue && logged(
            s0,
            s1,
            EventKind::Warning,
            "wake intent: interrupt requested; backend control routing not enabled yet"@,
        ) && o1.message@ == "wake intent: interrupt noted; backend routing not enabled"@
            && o1.approval_armed_id == o0.approval_armed_id && busy1 == busy0,
        Intent::Approve => action is Continue && s1 == s0 && busy1 == busy0 && (if s0.pending_approval
            is None {
            o1.message@ == "no pending backend approval"@ && o1.approval_armed_id
                == o0.approval_armed_id
        } else if !can_route_spec(s0, args) {
            o1.message@ == "approval is observe-only for this backend"@ && o1.approval_armed_id is None
        } else {
            o1.message@ == "approval armed; press A to confirm or r to reject"@ && armed_view(
                o1.approval_armed_id,
            ) == Some(s0.pending_approval->0.id@)
        }),
        Intent::ConfirmApprove => routed_effect(
            s0,
            args,
            match s0.pending_approval {
                Some(a) => Some(a.id@),
                None => armed_view(o0.approval_armed_id),
            },
            busy0,
            "approve"@,
            s1,
            o1,
            busy1,
            action,
        ),
        Intent::Reject => routed_effect(
            s0,
            args,
            armed_view(o0.approval_armed_id),
            busy0,
            "reject"@,
            s1,
            o1,
            busy1,
            action,
        ),
        Intent::Unknown(command) => action is Continue && logged(
            s0,
            s1,
            EventKind::Warning,
            ignored_label(command@),
        ) && o1.message@ == compact(ignored_label(command@), 72) && o1.approval_armed_id
            == o0.approval_armed_id && busy1 == busy0,
        _ => action is Continue && logged(s0, s1, EventKind::Warning, unrouted_label(i))
            && o1.message@ == compact(unrouted_label(i), 72) && o1.approval_armed_id
            == o0.approval_armed_id && busy1 == busy0,
    }
}

/// `s1` is `s0` with one more event of this kind and label at the end.
pub open spec fn logged(s0: CockpitState, s1: CockpitState, kind: EventKind, label: Seq<char>) -> bool {
    &&& same_but_events(s1, s0)
    &&& s1.events@.len() == s0.events@.len() + 1
    &&& s1.events@.drop_last() == s0.events@
    &&& event_view(s1.events@.last()) == (kind, label)
}

/// What routing an approval response does to the cockpit, the overlay and
/// the running prompt, and the action it asks for.
pub open spec fn routed_effect(
    s0: CockpitState,
    args: TuiArgs,
    armed: Option<Seq<char>>,
    busy0: bool,
    decision: Seq<char>,
    s1: CockpitState,
    o1: UiOverlay,
    busy1: bool,
    action: UiAction,
) -> bool {
    let outcome = approval_outcome_spec(s0, args, armed, busy0, decision);
    &&& !(outcome is Routed) ==> action is Continue && s1 == s0 && busy1 == busy0
    &&& outcome is NoPending ==> o1.message@ == "no pending backend approval"@
    &&& outcome is ObserveOnly ==> o1.message@ == "approval is observe-only for this backend"@
    &&& outcome is NeedsArming ==> o1.message@ == "approval requires arming first with a"@
    &&& outcome is Busy ==> o1.message@ == "backend still running; approval response preserved"@
    &&& outcome is Routed ==> {
        let id = s0.pending_approval->0.id@;
        &&& action matches UiAction::SendPrompt(p) && p@ == "/"@ + decision + " "@ + id
        &&& busy1
        &&& s1.pending_approval is None
        &&& o1.approval_armed_id is None
        &&& o1.message@ == "approval "@ + decision + " routed to backend"@
        &&& s1.events@.drop_last() == s0.events@
        &&& event_view(s1.events@.last()) == (
            EventKind::ApprovalRouted,
            "approval routed: "@ + decision + " "@ + id,
        )
    }
}

/// The overlays agree on everything but the status message.
pub open spec fn only_message_changed(o0: UiOverlay, o1: UiOverlay) -> bool {
    same_input(o1, o0) && o1.approval_armed_id == o0.approval_armed_id
}

/// The overlay's input was emptied; its mode, scroll and armed approval
/// stay.
pub open spec fn input_cleared(o0: UiOverlay, o1: UiOverlay) -> bool {
    &&& o1.input@.len() == 0
    &&& o1.input_cursor == 0
    &&& o1.input_mode == o0.input_mode
    &&& o1.activity_scroll == o0.activity_scroll
    &&& o1.approval_armed_id == o0.approval_armed_id
}

/// A chat prompt can be handled without failing: where it carries the wake
/// phrase, the phrase can be cut from it on a character boundary.
pub open spec fn chat_prompt_ok(input: Seq<char>, wake: Seq<char>) -> bool {
    wake_prefixed_spec(trim(input), wake) ==> wake_strip_defined(trim(trim(input)), wake)
}

/// What sending the typed chat line does: an empty line is cancelled, a
/// wake-prefixed one is handled as a control intent, a line typed while the
/// backend is busy stays as a draft, and anything else is sent to the
/// backend.
pub open spec fn chat_effect(
    s0: CockpitState,
    args: TuiArgs,
    o0: UiOverlay,
    busy0: bool,
    wake: Seq<char>,
    s1: CockpitState,
    o1: UiOverlay,
    busy1: bool,
    action: UiAction,
) -> bool {
    let prompt = trim(o0.input@);
    if prompt.len() == 0 {
        &&& action is Continue
        &&& s1 == s0
        &&& busy1 == busy0
        &&& input_cleared(o0, o1)
        &&& o1.message@ == "empty prompt, cancelled"@
    } else if wake_prefixed_spec(prompt, wake) {
        &&& o1.input@.len() == 0
        &&& o1.input_cursor == 0
        &&& o1.input_mode == o0.input_mode
        &&& exists|i: Intent| #[trigger]
            wake_intent_of(prompt, wake, i) && wake_effect(i, s0, args, o0, busy0, s1, o1, busy1, action)
    } else if busy0 {
        &&& action is Continue
        &&& s1 == s0
        &&& busy1
        &&& only_message_changed(o0, o1)
        &&& o1.message@ == "backend still running; wait for response (draft preserved)"@
    } else {
        &&& action matches UiAction::SendPrompt(p) && p@ == prompt
        &&& logged(s0, s1, EventKind::Processing, "sending: "@ + compact(prompt, 60))
        &&& busy1
        &&& input_cleared(o0, o1)
        &&& o1.message@ == "sending to backend..."@
    }
}

/// Sends the typed chat line: see `chat_effect`.
pub fn route_chat_input(
    state: &mut CockpitState,
    args: &TuiArgs,
    overlay: &mut UiOverlay,
    prompt_inflight: &mut bool,
    wake_phrase: &str,
) -> (r: UiAction)
    requires
        chat_prompt_ok(old(overlay).input@, wake_phrase@),
    ensures
        chat_effect(
            *old(state),
            *args,
            *old(overlay),
            *old(prompt_inflight),
            wake_phrase@,
            *final(state),
            *final(overlay),
            *final(prompt_inflight),
            r,
        ),
{
    let ic = chars_of(overlay.input.as_str());
    let tc = trim_chars(&ic);
    let prompt = string_of(&tc);
    if tc.len() == 0 {
        overlay.clear_input();
        overlay.message = string_from_str("empty prompt, cancelled");
        return UiAction::Continue;
    }
    match handle_wake_intent(state, overlay, prompt.as_str(), args, prompt_inflight, wake_phrase) {
        Some(action) => {
            return action;
        },
        None => {},
    }
    if *prompt_inflight {
        overlay.message = string_from_str(
            "backend still running; wait for response (draft preserved)",
        );
        return UiAction::Continue;
    }
    overlay.clear_input();
    let short = compact_chars(&tc, 60);
    let label = concat2("sending: ", string_of(&short).as_str());
    push_operator_event(state, EventKind::Processing, label.as_str());
    overlay.message = string_from_str("sending to backend...");
    *prompt_inflight = true;
    UiAction::SendPrompt(prompt)
}

/// The backend command typed in slash mode: the line without its leading
/// slashes, trimmed.
pub open spec fn slash_command(input: Seq<char>) -> Seq<char> {
    trim(trim_set_start(trim(input), seq!['/']))
}

/// The typed slash-mode line as the chat line that carries it.
pub open spec fn slash_line(input: Seq<char>) -> Seq<char> {
    seq!['/'] + slash_command(input)
}

/// What sending the typed slash-mode line does: an empty command is
/// cancelled; otherwise the line becomes `/command` and is sent as chat.
pub open spec fn slash_effect(
    s0: CockpitState,
    args: TuiArgs,
    o0: UiOverlay,
    busy0: bool,
    wake: Seq<char>,
    s1: CockpitState,
    o1: UiOverlay,
    busy1: bool,
    action: UiAction,
) -> bool {
    if slash_command(o0.input@).len() == 0 {
        &&& action is Continue
        &&& s1 == s0
        &&& busy1 == busy0
        &&& input_cleared(o0, o1)
        &&& o1.message@ == "empty slash command, cancelled"@
    } else {
        exists|o: UiOverlay|
            #![trigger chat_effect(s0, args, o, busy0, wake, s1, o1, busy1, action)]
            o.input@ == slash_line(o0.input@) && o.input_cursor == o.input@.len()
                && o.input_mode == o0.input_mode && o.message == o0.message && o.activity_scroll
                == o0.activity_scroll && o.approval_armed_id == o0.approval_armed_id
                && chat_effect(s0, args, o, busy0, wake, s1, o1, busy1, action)
    }
}

/// Sends the typed slash-mode line: see `slash_effect`.
pub fn route_slash_input(
    state: &mut CockpitState,
    args: &TuiArgs,
    overlay: &mut UiOverlay,
    prompt_inflight: &mut bool,
    wake_phrase: &str,
) -> (r: UiAction)
    requires
        slash_command(old(overlay).input@).len() > 0 ==> chat_prompt_ok(
            slash_line(old(overlay).input@),
            wake_phrase@,
        ),
    ensures
        slash_effect(
            *old(state),
            *args,
            *old(overlay),
            *old(prompt_inflight),
            wake_phrase@,
            *final(state),
            *final(overlay),
            *final(prompt_inflight),
            r,
        ),
{
    let ic = chars_of(overlay.input.as_str());
    let t1 = trim_chars(&ic);
    let slash: Vec<char> = vec!['/'];
    assert(slash@ =~= seq!['/']);
    let t2 = trim_set_start_chars(&t1, &slash);
    let command = trim_chars(&t2);
    if command.len() == 0 {
        overlay.clear_input();
        overlay.message = string_from_str("empty slash command, cancelled");
        return UiAction::Continue;
    }
    let mut line = String::new();
    push_char(&mut line, '/');
    push_str(&mut line, string_of(&command).as_str());
    assert(line@ =~= slash_line(old(overlay).input@));
    overlay.input = line;
    overlay.input_cursor = overlay.input_len();
    route_chat_input(state, args, overlay, prompt_inflight, wake_phrase)
}

/// Reports a finished shell command in the log and the status line.
pub fn apply_shell_result(state: &mut CockpitState, overlay: &mut UiOverlay, result: &BackendCommandResult)
    ensures
        logged(
            *old(state),
            *final(state),
            if result.ok {
                EventKind::ResponseStream
            } else {
                EventKind::Warning
            },
            "cmd: "@ + compact(result.summary@, 120),
        ),
        only_message_changed(*old(overlay), *final(overlay)),
        final(overlay).message@ == (if result.ok {
            "cmd ok: "@
        } else {
            "cmd failed: "@
        }) + compact(result.summary@, 48),
{
    let kind = if result.ok {
        EventKind::ResponseStream
    } else {
        EventKind::Warning
    };
    let sc = chars_of(result.summary.as_str());
    let long = compact_chars(&sc, 120);
    let label = concat2("cmd: ", string_of(&long).as_str());
    push_operator_event(state, kind, label.as_str());
    let short = compact_chars(&sc, 48);
    overlay.message = if result.ok {
        concat2("cmd ok: ", string_of(&short).as_str())
    } else {
        concat2("cmd failed: ", string_of(&short).as_str())
    };
}

/// A key the cockpit reacts to.
#[derive(Debug, Clone, Copy, PartialEq, Eq, Structural)]
pub enum Key {
    Esc,
    Enter,
    PageUp,
    PageDown,
    Backspace,
    Delete,
    Left,
    Right,
    Home,
    End,
    Up,
    Down,
    Char(char),
    Other,
}

/// Finishes a refresh that a key asked for, once the new state is taken.
pub fn finish_refresh(state: &mut CockpitState, overlay: &mut UiOverlay, after: AfterRefresh)
    ensures
        after == AfterRefresh::PickerStatus ==> *final(state) == *old(state)
            && final(overlay).input_mode is None && final(overlay).input == old(overlay).input
            && final(overlay).input_cursor == old(overlay).input_cursor
            && final(overlay).activity_scroll == old(overlay).activity_scroll
            && final(overlay).approval_armed_id == old(overlay).approval_armed_id
            && final(overlay).message@ == "status refreshed from backend"@,
        after == AfterRefresh::WakeStatus ==> logged(
            *old(state),
            *final(state),
            EventKind::Listening,
            "wake intent: status refreshed"@,
        ) && only_message_changed(*old(overlay), *final(overlay)) && final(overlay).message@
            == "wake intent: status refreshed"@,
{
    match after {
        AfterRefresh::PickerStatus => {
            overlay.input_mode = None;
            overlay.message = string_from_str("status refreshed from backend");
        },
        AfterRefresh::WakeStatus => {
            push_operator_event(state, EventKind::Listening, "wake intent: status refreshed");
            overlay.message = string_from_str("wake intent: status refreshed");
        },
    }
}

/// What a key does while the input picker is open: Esc cancels, `c`, `t`
/// and `/` open the command, chat and slash modes, `s` refreshes, `q` quits.
pub open spec fn picker_key_effect(o0: UiOverlay, key: Key, o1: UiOverlay, r: UiAction) -> bool {
    if key == Key::Esc {
        r is Continue && o1.input_mode is None && input_cleared_any(o0, o1) && o1.message@
            == "input cancelled"@
    } else if key == Key::Char('c') {
        r is Continue && o1.input_mode == Some(InputMode::Command) && kept_but_mode(o0, o1)
            && o1.message@ == "CMD mode: type a shell command, Enter to run"@
    } else if key == Key::Char('t') {
        r is Continue && o1.input_mode == Some(InputMode::Chat) && kept_but_mode(o0, o1)
            && o1.message@ == "Chat mode: type a message for Hermes/OpenClaw"@
    } else if key == Key::Char('/') {
        r is Continue && o1.input_mode == Some(InputMode::Slash) && input_cleared_any(o0, o1)
            && o1.message@ == "Slash mode: type backend slash command, e.g. voice on"@
    } else if key == Key::Char('s') {
        r == UiAction::Refresh(AfterRefresh::PickerStatus) && o1 == o0
    } else if key == Key::Char('q') {
        r is Quit && o1 == o0
    } else {
        r is Continue && o1 == o0
    }
}

/// What a key does while the input picker is open: see `picker_key_effect`.
pub fn handle_picker_key(overlay: &mut UiOverlay, key: Key) -> (r: UiAction)
    ensures
        picker_key_effect(*old(overlay), key, *final(overlay), r),
{
    match key {
        Key::Esc => {
            overlay.input_mode = None;
            overlay.clear_input();
            overlay.message = string_from_str("input cancelled");
            UiAction::Continue
        },
        Key::Char('c') => {
            overlay.input_mode = Some(InputMode::Command);
            overlay.message = string_from_str("CMD mode: type a shell command, Enter to run");
            UiAction::Continue
        },
        Key::Char('t') => {
            overlay.input_mode = Some(InputMode::Chat);
            overlay.message = string_from_str("Chat mode: type a message for Hermes/OpenClaw");
            UiAction::Continue
        },
        Key::Char('/') => {
            overlay.input_mode = Some(InputMode::Slash);
            overlay.clear_input();
            overlay.message = string_from_str(
                "Slash mode: type backend slash command, e.g. voice on",
            );
            UiAction::Continue
        },
        Key::Char('s') => UiAction::Refresh(AfterRefresh::PickerStatus),
        Key::Char('q') => UiAction::Quit,
        _ => UiAction::Continue,
    }
}

/// The input was emptied; scroll and armed approval stay.
pub open spec fn input_cleared_any(o0: UiOverlay, o1: UiOverlay) -> bool {
    &&& o1.input@.len() == 0
    &&& o1.input_cursor == 0
    &&& o1.activity_scroll == o0.activity_scroll
    &&& o1.approval_armed_id == o0.approval_armed_id
}

/// Only the mode and the message changed.
pub open spec fn kept_but_mode(o0: UiOverlay, o1: UiOverlay) -> bool {
    &&& o1.input == o0.input
    &&& o1.input_cursor == o0.input_cursor
    &&& o1.activity_scroll == o0.activity_scroll
    &&& o1.approval_armed_id == o0.approval_armed_id
}

/// A key can be handled in a text mode without failing: backspace needs
/// the cursor within the input, typing and moving right need room to count
/// one more, and sending needs a chat line whose wake phrase can be cut.
pub open spec fn text_key_ok(o: UiOverlay, key: Key, wake: Seq<char>) -> bool {
    match key {
        Key::Backspace => o.cursor_ok(),
        Key::Char(_) | Key::Right => o.input_cursor < usize::MAX,
        Key::Enter => match o.input_mode {
            Some(InputMode::Chat) => chat_prompt_ok(o.input@, wake),
            Some(InputMode::Slash) => slash_command(o.input@).len() > 0 ==> chat_prompt_ok(
                slash_line(o.input@),
                wake,
            ),
            _ => true,
        },
        _ => true,
    }
}

/// `o1` is `o0` after one of its editing steps, with message, mode, scroll
/// and armed approval kept.
pub open spec fn edited(o0: UiOverlay, o1: UiOverlay, input: Seq<char>, cursor: int) -> bool {
    &&& o1.input@ == input
    &&& o1.input_cursor == cursor
    &&& o1.input_mode == o0.input_mode
    &&& o1.message == o0.message
    &&& o1.activity_scroll == o0.activity_scroll
    &&& o1.approval_armed_id == o0.approval_armed_id
}

/// What a key does while a text mode is open.
pub open spec fn text_key_effect(
    s0: CockpitState,
    args: TuiArgs,
    o0: UiOverlay,
    busy0: bool,
    key: Key,
    wake: Seq<char>,
    s1: CockpitState,
    o1: UiOverlay,
    busy1: bool,
    action: UiAction,
) -> bool {
    let unchanged_state = s1 == s0 && busy1 == busy0;
    let len = o0.input@.len() as int;
    let cur = o0.input_cursor as int;
    match key {
        Key::Esc => action is Continue && unchanged_state && o1.input_mode is None
            && input_cleared_any(o0, o1) && o1.message@ == "input cancelled"@,
        Key::Enter => match o0.input_mode {
            Some(InputMode::Command) => action matches UiAction::RunShell(c) && c@ == trim(o0.input@)
                && unchanged_state && input_cleared(o0, o1) && o1.message == o0.message,
            Some(InputMode::Chat) => chat_effect(s0, args, o0, busy0, wake, s1, o1, busy1, action),
            Some(InputMode::Slash) => slash_effect(s0, args, o0, busy0, wake, s1, o1, busy1, action),
            _ => action is Continue && unchanged_state && o1 == o0,
        },
        Key::PageUp => action is Continue && unchanged_state && o1.activity_scroll == (if o0.activity_scroll
            < usize::MAX {
            o0.activity_scroll + 1
        } else {
            o0.activity_scroll as int
        }) && kept_scroll_aside(o0, o1),
        Key::PageDown => action is Continue && unchanged_state && o1.activity_scroll == (if o0.activity_scroll
            > 0 {
            o0.activity_scroll - 1
        } else {
            0
        }) && kept_scroll_aside(o0, o1),
        Key::Backspace => action is Continue && unchanged_state && if cur == 0 {
            edited(o0, o1, o0.input@, 0)
        } else {
            edited(o0, o1, o0.input@.remove(cur - 1), cur - 1)
        },
        Key::Delete => action is Continue && unchanged_state && if cur >= len {
            edited(o0, o1, o0.input@, cur)
        } else {
            edited(o0, o1, o0.input@.remove(cur), cur)
        },
        Key::Left => action is Continue && unchanged_state && edited(
            o0,
            o1,
            o0.input@,
            if cur > 0 {
                cur - 1
            } else {
                0
            },
        ),
        Key::Right => action is Continue && unchanged_state && edited(
            o0,
            o1,
            o0.input@,
            if cur + 1 <= len {
                cur + 1
            } else {
                len
            },
        ),
        Key::Home => action is Continue && unchanged_state && edited(o0, o1, o0.input@, 0),
        Key::End => action is Continue && unchanged_state && edited(o0, o1, o0.input@, len),
        Key::Char(ch) => action is Continue && unchanged_state && edited(
            o0,
            o1,
            insert_at(o0.input@, cur, ch),
            cur + 1,
        ),
        _ => action is Continue && unchanged_state && o1 == o0,
    }
}

/// Everything but the scroll stays.
pub open spec fn kept_scroll_aside(o0: UiOverlay, o1: UiOverlay) -> bool {
    &&& o1.input_mode == o0.input_mode
    &&& o1.input == o0.input
    &&& o1.input_cursor == o0.input_cursor
    &&& o1.message == o0.message
    &&& o1.approval_armed_id == o0.approval_armed_id
}

/// What a key does while a text mode (command, chat or slash) is open: see
/// `text_key_effect`.
pub fn handle_text_input_key(
    state: &mut CockpitState,
    args: &TuiArgs,
    overlay: &mut UiOverlay,
    key: Key,
    prompt_inflight: &mut bool,
    wake_phrase: &str,
) -> (r: UiAction)
    requires
        text_key_ok(*old(overlay), key, wake_phrase@),
    ensures
        text_key_effect(
            *old(state),
            *args,
            *old(overlay),
            *old(prompt_inflight),
            key,
            wake_phrase@,
            *final(state),
            *final(overlay),
            *final(prompt_inflight),
            r,
        ),
{
    match key {
        Key::Esc => {
            overlay.input_mode = None;
            overlay.clear_input();
            overlay.message = string_from_str("input cancelled");
            UiAction::Continue
        },
        Key::Enter => match overlay.input_mode {
            Some(InputMode::Command) => {
                let ic = chars_of(overlay.input.as_str());
                let command = string_of(&trim_chars(&ic));
                overlay.clear_input();
                UiAction::RunShell(command)
            },
            Some(InputMode::Chat) => route_chat_input(
                state,
                args,
                overlay,
                prompt_inflight,
                wake_phrase,
            ),
            Some(InputMode::Slash) => route_slash_input(
                state,
                args,
                overlay,
                prompt_inflight,
                wake_phrase,
            ),
            _ => UiAction::Continue,
        },
        Key::PageUp => {
            if overlay.activity_scroll < usize::MAX {
                overlay.activity_scroll = overlay.activity_scroll + 1;
            }
            UiAction::Continue
        },
        Key::PageDown => {
            if overlay.activity_scroll > 0 {
                overlay.activity_scroll = overlay.activity_scroll - 1;
            }
            UiAction::Continue
        },
        Key::Backspace => {
            overlay.backspace();
            UiAction::Continue
        },
        Key::Delete => {
            overlay.delete();
            UiAction::Continue
        },
        Key::Left => {
            overlay.move_left();
            UiAction::Continue
        },
        Key::Right => {
            overlay.move_right();
            UiAction::Continue
        },
        Key::Home => {
            overlay.move_home();
            UiAction::Continue
        },
        Key::End => {
            overlay.move_end();
            UiAction::Continue
        },
        Key::Char(ch) => {
            overlay.insert_char(ch);
            UiAction::Continue
        },
        _ => UiAction::Continue,
    }
}

/// A key can be handled while typing without failing (see `text_key_ok`).
pub open spec fn input_key_ok(o: UiOverlay, key: Key, wake: Seq<char>) -> bool {
    match o.input_mode {
        Some(InputMode::Picker) => true,
        Some(_) => text_key_ok(o, key, wake),
        None => true,
    }
}

/// What a key does while the operator is typing: the picker's keys, or the
/// text modes' keys.
pub open spec fn input_key_effect(
    s0: CockpitState,
    args: TuiArgs,
    o0: UiOverlay,
    busy0: bool,
    key: Key,
    wake: Seq<char>,
    s1: CockpitState,
    o1: UiOverlay,
    busy1: bool,
    action: UiAction,
) -> bool {
    match o0.input_mode {
        Some(InputMode::Picker) => s1 == s0 && busy1 == busy0 && picker_key_effect(o0, key, o1, action),
        Some(_) => text_key_effect(s0, args, o0, busy0, key, wake, s1, o1, busy1, action),
        None => action is Continue && s1 == s0 && busy1 == busy0 && o1 == o0,
    }
}

/// What a key does while the operator is typing: see `input_key_effect`.
pub fn handle_input_key(
    state: &mut CockpitState,
    args: &TuiArgs,
    overlay: &mut UiOverlay,
    key: Key,
    prompt_inflight: &mut bool,
    wake_phrase: &str,
) -> (r: UiAction)
    requires
        input_key_ok(*old(overlay), key, wake_phrase@),
    ensures
        input_key_effect(
            *old(state),
            *args,
            *old(overlay),
            *old(prompt_inflight),
            key,
            wake_phrase@,
            *final(state),
            *final(overlay),
            *final(prompt_inflight),
            r,
        ),
{
    match overlay.input_mode {
        Some(InputMode::Picker) => handle_picker_key(overlay, key),
        Some(_) => handle_text_input_key(state, args, overlay, key, prompt_inflight, wake_phrase),
        None => UiAction::Continue,
    }
}

/// What a key does on the cockpit itself (not typing): quit, hand over to
/// the backend's voice session, open the input picker, refresh, arm the
/// wake, scroll, arm, approve or reject the pending approval, or note an
/// interrupt or voice request.
pub open spec fn cockpit_key_effect(
    s0: CockpitState,
    args: TuiArgs,
    o0: UiOverlay,
    busy0: bool,
    key: Key,
    ctrl: bool,
    refresh_inflight: bool,
    s1: CockpitState,
    o1: UiOverlay,
    busy1: bool,
    action: UiAction,
) -> bool {
    let same = s1 == s0 && busy1 == busy0;
    let pending = s0.pending_approval is Some;
    if key == Key::Char('q') || key == Key::Esc || (key == Key::Char('c') && ctrl) {
        action is Quit && same && o1 == o0
    } else if key == Key::Char('b') && ctrl {
        action is VoiceHandoff && busy1 == busy0 && o1 == o0 && logged(
            s0,
            s1,
            EventKind::Listening,
            "voice: handing terminal to Hermes; enable /voice on then press Ctrl+B there"@,
        )
    } else if key == Key::Char(':') {
        action is Continue && same && o1.input_mode == Some(InputMode::Picker) && input_cleared_any(
            o0,
            o1,
        ) && o1.message@ == "choose input: [c] CMD shell · [t] Chat · [/] backend CLI"@
    } else if key == Key::Char('s') && !refresh_inflight && !busy0 {
        action is SpawnRefresh && same && only_message_changed(o0, o1) && o1.message@
            == "refreshing backend status..."@
    } else if key == Key::Char('w') {
        action is ArmWake && same && o1 == o0
    } else if key == Key::Up {
        action is Continue && same && kept_scroll_aside(o0, o1) && o1.activity_scroll == (if o0.activity_scroll
            < usize::MAX {
            o0.activity_scroll + 1
        } else {
            o0.activity_scroll as int
        })
    } else if key == Key::Down {
        action is Continue && same && kept_scroll_aside(o0, o1) && o1.activity_scroll == (if o0.activity_scroll
            > 0 {
            o0.activity_scroll - 1
        } else {
            0
        })
    } else if key == Key::Char('a') && pending {
        action is Continue && same && same_input(o1, o0) && if !can_route_spec(s0, args) {
            o1.message@ == "approval is observe-only for this backend"@ && o1.approval_armed_id is None
        } else {
            o1.message@ == "approval armed; press A to confirm or r to reject"@ && armed_view(
                o1.approval_armed_id,
            ) == Some(s0.pending_approval->0.id@)
        }
    } else if key == Key::Char('A') && pending {
        same_input(o1, o0) && routed_effect(
            s0,
            args,
            armed_view(o0.approval_armed_id),
            busy0,
            "approve"@,
            s1,
            o1,
            busy1,
            action,
        )
    } else if key == Key::Char('r') && pending {
        same_input(o1, o0) && routed_effect(
            s0,
            args,
            armed_view(o0.approval_armed_id),
            busy0,
            "reject"@,
            s1,
            o1,
            busy1,
            action,
        )
    } else if key == Key::Char('i') {
        action is Continue && busy1 == busy0 && o1 == o0 && logged(
            s0,
            s1,
            EventKind::Warning,
            "interrupt requested; backend control routing not enabled yet"@,
        )
    } else if key == Key::Char('m') {
        action is Continue && busy1 == busy0 && o1 == o0 && logged(
            s0,
            s1,
            EventKind::Listening,
            "voice status requested; use w to arm keyboard wake or Ctrl+B for Hermes mic voice mode"@,
        )
    } else {
        action is Continue && same && o1 == o0
    }
}

/// What a key does on the cockpit itself: see `cockpit_key_effect`.
pub fn handle_cockpit_key(
    state: &mut CockpitState,
    args: &TuiArgs,
    overlay: &mut UiOverlay,
    key: Key,
    ctrl: bool,
    refresh_inflight: bool,
    prompt_inflight: &mut bool,
) -> (r: UiAction)
    ensures
        cockpit_key_effect(
            *old(state),
            *args,
            *old(overlay),
            *old(prompt_inflight),
            key,
            ctrl,
            refresh_inflight,
            *final(state),
            *final(overlay),
            *final(prompt_inflight),
            r,
        ),
{
    let pending = state.pending_approval.is_some();
    if key == Key::Char('q') || key == Key::Esc || (key == Key::Char('c') && ctrl) {
        UiAction::Quit
    } else if key == Key::Char('b') && ctrl {
        push_operator_event(
            state,
            EventKind::Listening,
            "voice: handing terminal to Hermes; enable /voice on then press Ctrl+B there",
        );
        UiAction::VoiceHandoff
    } else if key == Key::Char(':') {
        overlay.input_mode = Some(InputMode::Picker);
        overlay.clear_input();
        overlay.message = string_from_str("choose input: [c] CMD shell · [t] Chat · [/] backend CLI");
        UiAction::Continue
    } else if key == Key::Char('s') && !refresh_inflight && !*prompt_inflight {
        overlay.message = string_from_str("refreshing backend status...");
        UiAction::SpawnRefresh
    } else if key == Key::Char('w') {
        UiAction::ArmWake
    } else if key == Key::Up {
        if overlay.activity_scroll < usize::MAX {
            overlay.activity_scroll = overlay.activity_scroll + 1;
        }
        UiAction::Continue
    } else if key == Key::Down {
        if overlay.activity_scroll > 0 {
            overlay.activity_scroll = overlay.activity_scroll - 1;
        }
        UiAction::Continue
    } else if key == Key::Char('a') && pending {
        arm_approval(state, args, overlay);
        UiAction::Continue
    } else if key == Key::Char('A') && pending {
        match route_approval_response(state, args, overlay, prompt_inflight, "approve") {
            Some(p) => UiAction::SendPrompt(p),
            None => UiAction::Continue,
        }
    } else if key == Key::Char('r') && pending {
        match route_approval_response(state, args, overlay, prompt_inflight, "reject") {
            Some(p) => UiAction::SendPrompt(p),
            None => UiAction::Continue,
        }
    } else if key == Key::Char('i') {
        push_operator_event(
            state,
            EventKind::Warning,
            "interrupt requested; backend control routing not enabled yet",
        );
        UiAction::Continue
    } else if key == Key::Char('m') {
        push_operator_event(
            state,
            EventKind::Listening,
            "voice status requested; use w to arm keyboard wake or Ctrl+B for Hermes mic voice mode",
        );
        UiAction::Continue
    } else {
        UiAction::Continue
    }
}

/// Whether a key can be handled without failing, as `input_key_ok` says.
pub fn input_key_defined(overlay: &UiOverlay, key: Key, wake_phrase: &str) -> (r: bool)
    ensures
        r == input_key_ok(*overlay, key, wake_phrase@),
{
    match overlay.input_mode {
        Some(InputMode::Picker) => true,
        None => true,
        Some(mode) => match key {
            Key::Backspace => overlay.input_cursor <= overlay.input_len(),
            Key::Char(_) | Key::Right => overlay.input_cursor < usize::MAX,
            Key::Enter => match mode {
                InputMode::Chat => chat_line_defined(overlay.input.as_str(), wake_phrase),
                InputMode::Slash => {
                    let ic = chars_of(overlay.input.as_str());
                    let t1 = trim_chars(&ic);
                    let slash: Vec<char> = vec!['/'];
                    assert(slash@ =~= seq!['/']);
                    let t2 = trim_set_start_chars(&t1, &slash);
                    let command = trim_chars(&t2);
                    if command.len() == 0 {
                        true
                    } else {
                        let mut line = String::new();
                        push_char(&mut line, '/');
                        push_str(&mut line, string_of(&command).as_str());
                        assert(line@ =~= slash_line(overlay.input@));
                        chat_line_defined(line.as_str(), wake_phrase)
                    }
                },
                _ => true,
            },
            _ => true,
        },
    }
}

fn chat_line_defined(input: &str, wake_phrase: &str) -> (r: bool)
    ensures
        r == chat_prompt_ok(input@, wake_phrase@),
{
    let ic = chars_of(input);
    let t = string_of(&trim_chars(&ic));
    if !is_wake_prefixed(t.as_str(), wake_phrase) {
        return true;
    }
    let tt = string_of(&trim_chars(&chars_of(t.as_str())));
    wake_strip_is_defined(tt.as_str(), wake_phrase)
}

/// Handles a key while typing, where it can be handled (see
/// `input_key_ok`); otherwise changes nothing and returns `None`.
pub fn try_handle_input_key(
    state: &mut CockpitState,
    args: &TuiArgs,
    overlay: &mut UiOverlay,
    key: Key,
    prompt_inflight: &mut bool,
    wake_phrase: &str,
) -> (r: Option<UiAction>)
    ensures
        !input_key_ok(*old(overlay), key, wake_phrase@) ==> r is None && *final(state) == *old(state)
            && *final(overlay) == *old(overlay) && *final(prompt_inflight) == *old(prompt_inflight),
        input_key_ok(*old(overlay), key, wake_phrase@) ==> (r matches Some(a) && input_key_effect(
            *old(state),
            *args,
            *old(overlay),
            *old(prompt_inflight),
            key,
            wake_phrase@,
            *final(state),
            *final(overlay),
            *final(prompt_inflight),
            a,
        )),
{
    if !input_key_defined(overlay, key, wake_phrase) {
        return None;
    }
    Some(handle_input_key(state, args, overlay, key, prompt_inflight, wake_phrase))
}

/// Notes in the status line that the voice session handed the terminal back.
pub fn finish_voice_handoff(overlay: &mut UiOverlay)
    ensures
        only_message_changed(*old(overlay), *final(overlay)),
        final(overlay).message@ == "voice session returned to Avu"@,
{
    overlay.message = string_from_str("voice session returned to Avu");
}

/// Takes the result of a background refresh: a new state is taken as
/// `apply_refreshed_state` does; a failure is only noted.
pub fn on_refresh_result(
    state: &mut CockpitState,
    overlay: &mut UiOverlay,
    result: Result<CockpitState, String>,
)
    ensures
        only_message_changed(*old(overlay), *final(overlay)),
        match result {
            Ok(refreshed) => same_but_events(*final(state), refreshed) && final(state).events@
                == keep_last(
                refreshed.events@ + carried_events(
                    old(state).events@,
                    any_active(refreshed.events@),
                ),
                200,
            ) && final(overlay).message@ == "backend status refreshed"@,
            Err(e) => *final(state) == *old(state) && final(overlay).message@
                == "backend refresh failed: "@ + compact(e@, 48),
        },
{
    match result {
        Ok(refreshed) => {
            apply_refreshed_state(state, refreshed);
            overlay.message = string_from_str("backend status refreshed");
        },
        Err(e) => {
            let ec = chars_of(e.as_str());
            let short = compact_chars(&ec, 48);
            overlay.message = concat2("backend refresh failed: ", string_of(&short).as_str());
        },
    }
}

/// Notes a prompt that could not reach the backend.
pub fn on_prompt_error(state: &mut CockpitState, overlay: &mut UiOverlay, error: &str)
    ensures
        logged(*old(state), *final(state), EventKind::Warning, error@),
        only_message_changed(*old(overlay), *final(overlay)),
        final(overlay).message@ == "backend error: "@ + compact(error@, 48),
{
    push_operator_event(state, EventKind::Warning, error);
    let ec = chars_of(error);
    let short = compact_chars(&ec, 48);
    overlay.message = concat2("backend error: ", string_of(&short).as_str());
}

/// The cockpit reads the backend's state again on its own every five
/// seconds, but not while the operator types or a refresh or prompt runs.
pub fn auto_refresh_due(
    elapsed_millis: u128,
    overlay: &UiOverlay,
    refresh_inflight: bool,
    prompt_inflight: bool,
) -> (r: bool)
    ensures
        r == (elapsed_millis >= 5000 && overlay.input_mode is None && !refresh_inflight
            && !prompt_inflight),
{
    elapsed_millis >= 5000 && !overlay.is_typing() && !refresh_inflight && !prompt_inflight
}

/// How a backend choice is named, as `Debug` writes it.
pub open spec fn choice_name(c: BackendChoice) -> Seq<char> {
    match c {
        BackendChoice::Auto => "Auto"@,
        BackendChoice::Fake => "Fake"@,
        BackendChoice::Hermes => "Hermes"@,
        BackendChoice::Openclaw => "Openclaw"@,
        BackendChoice::Remote => "Remote"@,
    }
}

/// The first line of a cockpit session's log.
pub fn session_started_label(choice: BackendChoice) -> (r: String)
    ensures
        r@ == "Avu session started — "@ + choice_name(choice) + " backend"@,
{
    let name = match choice {
        BackendChoice::Auto => "Auto",
        BackendChoice::Fake => "Fake",
        BackendChoice::Hermes => "Hermes",
        BackendChoice::Openclaw => "Openclaw",
        BackendChoice::Remote => "Remote",
    };
    concat3("Avu session started — ", name, " backend")
}

/// The events the activity log shows, as positions in the state's events:
/// the twelve most recent, less the `scroll` newest when scrolled back (and
/// more than that many are there), oldest first.
pub open spec fn activity_window(len: int, scroll: int) -> (int, int) {
    let n = if len < 12 {
        len
    } else {
        12
    };
    let start = len - n;
    let shown = if scroll > 0 && n > scroll {
        n - scroll
    } else {
        n
    };
    (start, start + shown)
}

/// The positions of the events the activity log shows.
pub fn visible_activity_range(events_len: usize, scroll: usize) -> (r: (usize, usize))
    ensures
        (r.0 as int, r.1 as int) == activity_window(events_len as int, scroll as int),
        r.0 <= r.1 <= events_len,
{
    let n: usize = if events_len < 12 {
        events_len
    } else {
        12
    };
    let start = events_len - n;
    let shown = if scroll > 0 && n > scroll {
        n - scroll
    } else {
        n
    };
    (start, start + shown)
}

/// One line of a label cut into pieces of `width` characters.
pub open spec fn chunks(l: Seq<char>, width: int) -> Seq<Seq<char>>
    decreases l.len(),
{
    if width <= 0 || l.len() <= width {
        seq![l]
    } else {
        seq![l.take(width)] + chunks(l.skip(width), width)
    }
}

/// The rows that lines `ls` of a label take: a line that fits stays whole,
/// a longer one is cut into pieces of `width` characters.
pub open spec fn wrapped_rows(ls: Seq<Seq<char>>, width: int) -> Seq<Seq<char>>
    decreases ls.len(),
{
    if ls.len() == 0 {
        Seq::empty()
    } else {
        wrapped_rows(ls.drop_last(), width) + chunks(ls.last(), width)
    }
}

/// How wide the activity log's text may be in a pane this wide: the pane
/// less its frame and time stamp, and at least one character.
pub open spec fn activity_text_width(area_width: int) -> int {
    if area_width > 13 {
        area_width - 12
    } else {
        1
    }
}

fn chunk_line(l: &Vec<char>, width: usize, out: &mut Vec<String>)
    requires
        width >= 1,
    ensures
        string_rows(final(out)@) == string_rows(old(out)@) + chunks(l@, width as int),
    decreases l.len(),
{
    if l.len() <= width {
        out.push(string_of(l));
        proof {
            assert(string_rows(out@) =~= string_rows(old(out)@) + seq![l@]);
        }
    } else {
        let head = slice_chars(l, 0, width);
        let rest = slice_chars(l, width, l.len());
        assert(head@ =~= l@.take(width as int));
        assert(rest@ =~= l@.skip(width as int));
        out.push(string_of(&head));
        let ghost mid = out@;
        proof {
            assert(string_rows(mid) =~= string_rows(old(out)@) + seq![l@.take(width as int)]);
        }
        chunk_line(&rest, width, out);
        proof {
            assert(string_rows(out@) =~= string_rows(old(out)@) + (seq![l@.take(width as int)] + chunks(l@.skip(width as int), width as int)));
        }
    }
}

/// The views of a list of strings.
pub open spec fn string_rows(v: Seq<String>) -> Seq<Seq<char>> {
    v.map_values(|s: String| s@)
}

/// The rows an activity label takes in a pane `area_width` wide.
pub fn wrap_activity_label(label: &str, area_width: u16) -> (r: Vec<String>)
    ensures
        string_rows(r@) == wrapped_rows(lines_of(label@), activity_text_width(area_width as int)),
{
    let width: usize = if area_width > 13 {
        (area_width - 12) as usize
    } else {
        1
    };
    let lc = chars_of(label);
    let ls = lines(&lc);
    let mut out: Vec<String> = Vec::new();
    let mut i: usize = 0;
    while i < ls.len()
        invariant
            i <= ls.len(),
            width >= 1,
            width as int == activity_text_width(area_width as int),
            views(ls@) == lines_of(label@),
            string_rows(out@) == wrapped_rows(views(ls@).take(i as int), width as int),
        decreases ls.len() - i,
    {
        chunk_line(&ls[i], width, &mut out);
        proof {
            assert(views(ls@).take(i + 1).drop_last() =~= views(ls@).take(i as int));
            assert(views(ls@).take(i + 1).last() == ls@[i as int]@);
        }
        i += 1;
    }
    proof {
        assert(views(ls@).take(ls.len() as int) =~= views(ls@));
    }
    out
}

/// A refresh carries over every operator event of the old state, in order,
/// except a `ready:` line while the backend reports activity; and it carries
/// nothing else.
pub proof fn law_refresh_carries_operator_events(evs: Seq<CockpitEvent>, active: bool)
    ensures
        forall|e: CockpitEvent|
            #[trigger] carried_events(evs, active).contains(e) ==> operator_label(e.label@) && !(
            active && starts_with(e.label@, "ready: "@)),
        forall|i: int|
            0 <= i < evs.len() && operator_label(#[trigger] evs[i].label@) && !(active && starts_with(
                evs[i].label@,
                "ready: "@,
            )) ==> carried_events(evs, active).contains(evs[i]),
        carried_events(evs, active).len() <= evs.len(),
    decreases evs.len(),
{
    if evs.len() > 0 {
        law_refresh_carries_operator_events(evs.drop_last(), active);
        let rest = carried_events(evs.drop_last(), active);
        let e = evs.last();
        assert forall|i: int|
            0 <= i < evs.len() && operator_label(#[trigger] evs[i].label@) && !(active && starts_with(
                evs[i].label@,
                "ready: "@,
            )) implies carried_events(evs, active).contains(evs[i]) by {
            if i < evs.len() - 1 {
                assert(evs.drop_last()[i] == evs[i]);
                assert(operator_label(evs.drop_last()[i].label@));
                assert(rest.contains(evs[i]));
                let j = choose|j: int| 0 <= j < rest.len() && rest[j] == evs[i];
                if operator_label(e.label@) && !(active && starts_with(e.label@, "ready: "@)) {
                    assert(rest.push(e)[j] == evs[i]);
                }
            } else {
                assert(evs[i] == e);
                assert(rest.push(e)[rest.len() as int] == e);
            }
        }
        assert forall|x: CockpitEvent| #[trigger]
            carried_events(evs, active).contains(x) implies operator_label(x.label@) && !(active
            && starts_with(x.label@, "ready: "@)) by {
            let c = carried_events(evs, active);
            let j = choose|j: int| 0 <= j < c.len() && c[j] == x;
            if operator_label(e.label@) && !(active && starts_with(e.label@, "ready: "@)) {
                if j < rest.len() {
                    assert(rest[j] == x);
                    assert(rest.contains(x));
                }
            } else {
                assert(rest[j] == x);
                assert(rest.contains(x));
            }
        }
    }
}

/// After a refresh the cockpit holds at most 200 events, and they are the
/// newest of the backend's events followed by the carried operator events.
pub proof fn law_refresh_bounds_history(fresh: Seq<CockpitEvent>, carried: Seq<CockpitEvent>)
    ensures
        keep_last(fresh + carried, 200).len() <= 200,
        keep_last(fresh + carried, 200).len() == (if (fresh + carried).len() > 200 {
            200
        } else {
            (fresh + carried).len() as int
        }),
        forall|i: int|
            0 <= i < keep_last(fresh + carried, 200).len() ==> #[trigger] keep_last(
                fresh + carried,
                200,
            )[i] == (fresh + carried)[(fresh + carried).len() - keep_last(fresh + carried, 200).len()
                + i],
{
}

/// No approval response leaves Avu unless the approval may be routed to
/// this live backend (never from a fixture) and no prompt is running; an
/// approval also needs to have been armed for that very request.
pub proof fn law_approval_routing_is_guarded(
    state: CockpitState,
    args: TuiArgs,
    armed: Option<Seq<char>>,
    busy: bool,
    decision: Seq<char>,
)
    ensures
        approval_outcome_spec(state, args, armed, busy, decision) is Routed ==> can_route_spec(
            state,
            args,
        ) && !busy && args.fixture is None && state.pending_approval is Some,
        approval_outcome_spec(state, args, armed, busy, decision) is Routed && decision == "approve"@
            ==> armed == Some(state.pending_approval->0.id@),
{
}

/// A wake-prefixed prompt never reaches the backend as a prompt of its own:
/// the only thing it can send is an approval response for the pending
/// approval.
pub proof fn law_wake_prompts_stay_local(
    i: Intent,
    s0: CockpitState,
    args: TuiArgs,
    o0: UiOverlay,
    busy0: bool,
    s1: CockpitState,
    o1: UiOverlay,
    busy1: bool,
    action: UiAction,
)
    requires
        wake_effect(i, s0, args, o0, busy0, s1, o1, busy1, action),
    ensures
        action matches UiAction::SendPrompt(p) ==> s0.pending_approval is Some && (p@ == "/approve "@
            + s0.pending_approval->0.id@ || p@ == "/reject "@ + s0.pending_approval->0.id@),
        i is Unknown ==> action is Continue && !busy1 == !busy0,
{
    let id = if s0.pending_approval is Some {
        s0.pending_approval->0.id@
    } else {
        Seq::empty()
    };
    assert("/"@ + "approve"@ + " "@ + id =~= "/approve "@ + id) by {
        reveal_strlit("/");
        reveal_strlit("approve");
        reveal_strlit(" ");
        reveal_strlit("/approve ");
    }
    assert("/"@ + "reject"@ + " "@ + id =~= "/reject "@ + id) by {
        reveal_strlit("/");
        reveal_strlit("reject");
        reveal_strlit(" ");
        reveal_strlit("/reject ");
    }
}

/// A chat line typed while the backend is still busy is kept as a draft:
/// nothing is sent and the input stays as typed.
pub proof fn law_busy_chat_keeps_draft(
    s0: CockpitState,
    args: TuiArgs,
    o0: UiOverlay,
    wake: Seq<char>,
    s1: CockpitState,
    o1: UiOverlay,
    busy1: bool,
    action: UiAction,
)
    requires
        chat_effect(s0, args, o0, true, wake, s1, o1, busy1, action),
        trim(o0.input@).len() > 0,
        !wake_prefixed_spec(trim(o0.input@), wake),
    ensures
        action is Continue,
        o1.input == o0.input,
        o1.input_cursor == o0.input_cursor,
        s1 == s0,
        busy1,
{
}

/// The rows of the operator control sheet, each a tag and its text: the keys,
/// then the pending approval's summary, action and how `a` answers it (a
/// second confirmation, or routing to the backend), or a note that approval
/// keys are disabled.
pub open spec fn control_sheet_spec(pending: Option<ApprovalRequest>) -> Seq<(Seq<char>, Seq<char>)> {
    let keys = ("KEYS "@, "[s]status [w]wake [:]CMD/Chat [Ctrl+B]Hermes voice [m]help [q]quit"@);
    match pending {
        None => seq![keys, ("CONTROL "@, "no pending backend approval; approval keys disabled"@)],
        Some(a) => seq![
            keys,
            ("APPROVAL "@, compact(a.summary@, 54)),
            ("ACTION   "@, match a.command {
                Some(c) => c@,
                None => "backend action"@,
            }),
            if needs_second_confirmation_spec(a) {
                ("SAFETY   "@, "[a] arm Approve  [A] confirm  [r] Reject"@)
            } else {
                ("ROUTE    "@, "[a] Approve via backend  [r] Reject via backend"@)
            },
        ],
    }
}

/// The views of tagged rows.
pub open spec fn rows_view(v: Seq<(String, String)>) -> Seq<(Seq<char>, Seq<char>)> {
    v.map_values(|p: (String, String)| (p.0@, p.1@))
}

/// The rows of the operator control sheet for the pending approval, if any.
pub fn control_sheet_rows(pending: Option<&ApprovalRequest>) -> (r: Vec<(String, String)>)
    ensures
        rows_view(r@) == control_sheet_spec(
            match pending {
                Some(a) => Some(*a),
                None => None,
            },
        ),
{
    let mut rows: Vec<(String, String)> = Vec::new();
    rows.push(
        (
            string_from_str("KEYS "),
            string_from_str("[s]status [w]wake [:]CMD/Chat [Ctrl+B]Hermes voice [m]help [q]quit"),
        ),
    );
    match pending {
        None => {
            rows.push(
                (
                    string_from_str("CONTROL "),
                    string_from_str("no pending backend approval; approval keys disabled"),
                ),
            );
        },
        Some(approval) => {
            let sc = chars_of(approval.summary.as_str());
            rows.push((string_from_str("APPROVAL "), string_of(&compact_chars(&sc, 54))));
            let command = match &approval.command {
                Some(c) => c.clone(),
                None => string_from_str("backend action"),
            };
            rows.push((string_from_str("ACTION   "), command));
            let gate = approval_gate(&Intent::Approve, Some(approval), false);
            match gate {
                ApprovalGate::RequireSecondConfirmation { .. } => {
                    rows.push(
                        (
                            string_from_str("SAFETY   "),
                            string_from_str("[a] arm Approve  [A] confirm  [r] Reject"),
                        ),
                    );
                },
                _ => {
                    rows.push(
                        (
                            string_from_str("ROUTE    "),
                            string_from_str("[a] Approve via backend  [r] Reject via backend"),
                        ),
                    );
                },
            }
        },
    }
    assert(rows_view(rows@) =~= control_sheet_spec(
        match pending {
            Some(a) => Some(*a),
            None => None,
        },
    ));
    rows
}

} // verus!
