//! The reducer that derives the cockpit's mode, voice label and active tool
//! count from its event log.

use vstd::prelude::*;
use crate::domain::{BackendKind, CockpitEvent, CockpitMode, CockpitState, EventKind, events_view};
use crate::text::{contains_str, has_sub, starts_with, starts_with_str, string_from_str};

verus! {

#[derive(Debug, Clone, Copy, PartialEq, Eq, Structural)]
pub enum PipelineStage {
    Input,
    Wake,
    Processing,
    Tooling,
    Approval,
    Responding,
    Speaking,
    Idle,
}

/// The pipeline stage that each kind of event belongs to.
pub open spec fn stage_of(kind: EventKind) -> PipelineStage {
    match kind {
        EventKind::Listening => PipelineStage::Input,
        EventKind::WakeWord => PipelineStage::Wake,
        EventKind::Processing => PipelineStage::Processing,
        EventKind::ToolStart | EventKind::ToolFinish => PipelineStage::Tooling,
        EventKind::ApprovalRequested | EventKind::ApprovalRouted => PipelineStage::Approval,
        EventKind::ResponseStream => PipelineStage::Responding,
        EventKind::Speaking => PipelineStage::Speaking,
        EventKind::Idle => PipelineStage::Idle,
        EventKind::Warning | EventKind::Error => PipelineStage::Idle,
    }
}

impl PipelineStage {
    pub fn from_event(kind: &EventKind) -> (r: Self)
        ensures
            r == stage_of(*kind),
    {
        match kind {
            EventKind::Listening => PipelineStage::Input,
            EventKind::WakeWord => PipelineStage::Wake,
            EventKind::Processing => PipelineStage::Processing,
            EventKind::ToolStart | EventKind::ToolFinish => PipelineStage::Tooling,
            EventKind::ApprovalRequested | EventKind::ApprovalRouted => PipelineStage::Approval,
            EventKind::ResponseStream => PipelineStage::Responding,
            EventKind::Speaking => PipelineStage::Speaking,
            EventKind::Idle => PipelineStage::Idle,
            EventKind::Warning | EventKind::Error => PipelineStage::Idle,
        }
    }
}

#[derive(Debug, Clone)]
pub struct CockpitProjection {
    pub mode: CockpitMode,
    pub voice_label: String,
    pub tools_active: u16,
}

/// One event's effect on the mode and on the count of active tools; a pending
/// approval keeps an idle event from clearing the mode.
pub open spec fn project_step(st: (CockpitMode, u16), kind: EventKind, pending: bool) -> (
    CockpitMode,
    u16,
) {
    match kind {
        EventKind::Listening => (CockpitMode::Listening, st.1),
        EventKind::WakeWord => (CockpitMode::WakeDetected, st.1),
        EventKind::Processing => (CockpitMode::Processing, st.1),
        EventKind::ToolStart => (
            CockpitMode::ToolActive,
            if st.1 == u16::MAX {
                u16::MAX
            } else {
                (st.1 + 1) as u16
            },
        ),
        EventKind::ToolFinish => (
            st.0,
            if st.1 == 0 {
                0u16
            } else {
                (st.1 - 1) as u16
            },
        ),
        EventKind::ApprovalRequested => (CockpitMode::ApprovalNeeded, st.1),
        EventKind::ApprovalRouted => (CockpitMode::Processing, st.1),
        EventKind::ResponseStream => (CockpitMode::Processing, st.1),
        EventKind::Speaking => (CockpitMode::Speaking, st.1),
        EventKind::Idle => (
            if pending {
                st.0
            } else {
                CockpitMode::Idle
            },
            st.1,
        ),
        EventKind::Warning => st,
        EventKind::Error => (CockpitMode::Error, st.1),
    }
}

/// The events' kinds in order.
pub open spec fn kinds_of(v: Seq<CockpitEvent>) -> Seq<EventKind> {
    v.map_values(|e: CockpitEvent| e.kind)
}

/// The mode and tool count after the events `ks`, from `init`.
pub open spec fn project_fold(init: (CockpitMode, u16), ks: Seq<EventKind>, pending: bool) -> (
    CockpitMode,
    u16,
)
    decreases ks.len(),
{
    if ks.len() == 0 {
        init
    } else {
        project_step(project_fold(init, ks.drop_last(), pending), ks.last(), pending)
    }
}

/// The mode and tool count that a cockpit's events lead to; a pending approval
/// always shows as the approval mode.
pub open spec fn projection_spec(reachable: bool, ks: Seq<EventKind>, pending: bool) -> (
    CockpitMode,
    u16,
) {
    let init = (
        if reachable {
            CockpitMode::Idle
        } else {
            CockpitMode::Disconnected
        },
        0u16,
    );
    let st = project_fold(init, ks, pending);
    (
        if pending {
            CockpitMode::ApprovalNeeded
        } else {
            st.0
        },
        st.1,
    )
}

/// The input label shown for each mode.
pub open spec fn voice_label_spec(m: CockpitMode) -> Seq<char> {
    match m {
        CockpitMode::Listening | CockpitMode::WakeDetected => "LISTENING"@,
        CockpitMode::Speaking => "SPEAKING"@,
        CockpitMode::ApprovalNeeded => "GATED"@,
        CockpitMode::Disconnected => "KEYBOARD"@,
        _ => "ARMED"@,
    }
}

fn voice_label_for(m: CockpitMode) -> (r: String)
    ensures
        r@ == voice_label_spec(m),
{
    match m {
        CockpitMode::Listening | CockpitMode::WakeDetected => string_from_str("LISTENING"),
        CockpitMode::Speaking => string_from_str("SPEAKING"),
        CockpitMode::ApprovalNeeded => string_from_str("GATED"),
        CockpitMode::Disconnected => string_from_str("KEYBOARD"),
        _ => string_from_str("ARMED"),
    }
}

/// The projection of a cockpit state's event log.
pub fn project_events(state: &CockpitState) -> (r: CockpitProjection)
    ensures
        (r.mode, r.tools_active) == projection_spec(
            state.capabilities.reachable,
            kinds_of(state.events@),
            state.pending_approval is Some,
        ),
        r.voice_label@ == voice_label_spec(r.mode),
{
    let pending = state.pending_approval.is_some();
    let mut mode = if state.capabilities.reachable {
        CockpitMode::Idle
    } else {
        CockpitMode::Disconnected
    };
    let ghost init = (mode, 0u16);
    let mut tools_active: u16 = 0;
    let mut i: usize = 0;
    while i < state.events.len()
        invariant
            i <= state.events.len(),
            pending == (state.pending_approval is Some),
            init == (
                if state.capabilities.reachable {
                    CockpitMode::Idle
                } else {
                    CockpitMode::Disconnected
                },
                0u16,
            ),
            (mode, tools_active) == project_fold(
                init,
                kinds_of(state.events@).take(i as int),
                pending,
            ),
        decreases state.events.len() - i,
    {
        let kind = state.events[i].kind;
        proof {
            assert(kinds_of(state.events@).take(i + 1).drop_last() =~= kinds_of(
                state.events@,
            ).take(i as int));
            assert(kinds_of(state.events@).take(i + 1).last() == kind);
        }
        match PipelineStage::from_event(&kind) {
            PipelineStage::Input => {
                mode = CockpitMode::Listening;
            },
            PipelineStage::Wake => {
                mode = CockpitMode::WakeDetected;
            },
            PipelineStage::Processing => {
                mode = CockpitMode::Processing;
            },
            PipelineStage::Tooling => {
                if kind == EventKind::ToolStart {
                    mode = CockpitMode::ToolActive;
                    tools_active = if tools_active == u16::MAX {
                        u16::MAX
                    } else {
                        tools_active + 1
                    };
                } else {
                    tools_active = if tools_active == 0 {
                        0
                    } else {
                        tools_active - 1
                    };
                }
            },
            PipelineStage::Approval => {
                if kind == EventKind::ApprovalRequested {
                    mode = CockpitMode::ApprovalNeeded;
                } else {
                    mode = CockpitMode::Processing;
                }
            },
            PipelineStage::Responding => {
                mode = CockpitMode::Processing;
            },
            PipelineStage::Speaking => {
                mode = CockpitMode::Speaking;
            },
            PipelineStage::Idle => {
                if kind == EventKind::Idle {
                    if !pending {
                        mode = CockpitMode::Idle;
                    }
                } else if kind == EventKind::Warning {
                } else {
                    mode = CockpitMode::Error;
                }
            },
        }
        i += 1;
    }
    assert(kinds_of(state.events@).take(state.events.len() as int) =~= kinds_of(state.events@));
    if pending {
        mode = CockpitMode::ApprovalNeeded;
    }
    let voice_label = voice_label_for(mode);
    CockpitProjection { mode, voice_label, tools_active }
}

/// Labels that only the fixture cockpit uses.
pub open spec fn fixture_label(l: Seq<char>) -> bool {
    has_sub(l, "tool:web.search"@) || has_sub(l, "tool:weather"@) || has_sub(l, "tool:terminal"@)
}

/// A cockpit that shows a live backend's own snapshot (whose voice label came
/// from the backend and must be kept), as opposed to a fixture.
pub open spec fn is_runtime_snapshot_spec(
    backend: BackendKind,
    pending: bool,
    ev: Seq<(EventKind, Seq<char>)>,
) -> bool {
    if backend == BackendKind::Fake || pending {
        false
    } else if ev.len() == 0 {
        true
    } else if ev.len() == 1 && starts_with(ev[0].1, "live backend"@) {
        true
    } else {
        forall|i: int| 0 <= i < ev.len() ==> !fixture_label(#[trigger] ev[i].1)
    }
}

fn is_runtime_snapshot_state(state: &CockpitState) -> (r: bool)
    ensures
        r == is_runtime_snapshot_spec(
            state.backend,
            state.pending_approval is Some,
            events_view(state.events@),
        ),
{
    if state.backend == BackendKind::Fake {
        return false;
    }
    if state.pending_approval.is_some() {
        return false;
    }
    if state.events.len() == 0 {
        return true;
    }
    if state.events.len() == 1 {
        let first = crate::text::chars_of(state.events[0].label.as_str());
        if starts_with_str(&first, "live backend") {
            return true;
        }
    }
    let ghost ev = events_view(state.events@);
    assert(!(ev.len() == 1 && starts_with(ev[0].1, "live backend"@)));
    let mut i: usize = 0;
    while i < state.events.len()
        invariant
            i <= state.events.len(),
            ev == events_view(state.events@),
            ev.len() > 0,
            state.backend != BackendKind::Fake,
            state.pending_approval is None,
            !(ev.len() == 1 && starts_with(ev[0].1, "live backend"@)),
            forall|j: int| 0 <= j < i ==> !fixture_label(#[trigger] ev[j].1),
        decreases state.events.len() - i,
    {
        let label = crate::text::chars_of(state.events[i].label.as_str());
        assert(ev[i as int].1 == label@);
        if contains_str(&label, "tool:web.search") || contains_str(&label, "tool:weather")
            || contains_str(&label, "tool:terminal") {
            assert(fixture_label(ev[i as int].1));
            return false;
        }
        i += 1;
    }
    true
}

/// The voice label after projection: a live snapshot keeps the backend's own
/// label, anything else shows the projected one.
pub open spec fn projected_voice_label(
    preserve: bool,
    reported: Seq<char>,
    mode: CockpitMode,
) -> Seq<char> {
    if preserve {
        reported
    } else {
        voice_label_spec(mode)
    }
}

/// Derives mode, voice label and tool count from the state's events.
pub fn apply_projection(state: &mut CockpitState)
    ensures
        (final(state).mode, final(state).tools_active) == projection_spec(
            old(state).capabilities.reachable,
            kinds_of(old(state).events@),
            old(state).pending_approval is Some,
        ),
        final(state).voice_label@ == projected_voice_label(
            is_runtime_snapshot_spec(
                old(state).backend,
                old(state).pending_approval is Some,
                events_view(old(state).events@),
            ),
            old(state).voice_label@,
            final(state).mode,
        ),
        final(state).events@ == old(state).events@,
        final(state).pending_approval == old(state).pending_approval,
        final(state).app_name == old(state).app_name,
        final(state).capabilities == old(state).capabilities,
        final(state).backend == old(state).backend,
        final(state).backend_label == old(state).backend_label,
        final(state).model_label == old(state).model_label,
        final(state).modules@ == old(state).modules@,
        final(state).cpu_percent == old(state).cpu_percent,
        final(state).memory_percent == old(state).memory_percent,
{
    let preserve = is_runtime_snapshot_state(state);
    let projection = project_events(state);
    state.mode = projection.mode;
    if !preserve {
        state.voice_label = projection.voice_label;
    }
    state.tools_active = projection.tools_active;
}

/// Appends an event and projects the state again.
pub fn push_event(state: &mut CockpitState, event: CockpitEvent)
    ensures
        final(state).events@ == old(state).events@.push(event),
        (final(state).mode, final(state).tools_active) == projection_spec(
            old(state).capabilities.reachable,
            kinds_of(old(state).events@.push(event)),
            old(state).pending_approval is Some,
        ),
        final(state).pending_approval == old(state).pending_approval,
{
    state.events.push(event);
    apply_projection(state);
}

/// What each event does to the mode and the count of running tools, whatever
/// came before: an error shows the error mode, a warning changes nothing, a
/// tool start counts one more tool and a tool finish one fewer (never below
/// zero), an idle event clears the mode unless an approval is pending, and
/// every other event shows its own mode without touching the count.
pub proof fn law_event_effects(st: (CockpitMode, u16), pending: bool)
    ensures
        project_step(st, EventKind::Error, pending) == (CockpitMode::Error, st.1),
        project_step(st, EventKind::Warning, pending) == st,
        project_step(st, EventKind::Listening, pending) == (CockpitMode::Listening, st.1),
        project_step(st, EventKind::WakeWord, pending) == (CockpitMode::WakeDetected, st.1),
        project_step(st, EventKind::Processing, pending) == (CockpitMode::Processing, st.1),
        project_step(st, EventKind::ApprovalRequested, pending) == (
            CockpitMode::ApprovalNeeded,
            st.1,
        ),
        project_step(st, EventKind::ApprovalRouted, pending) == (CockpitMode::Processing, st.1),
        project_step(st, EventKind::ResponseStream, pending) == (CockpitMode::Processing, st.1),
        project_step(st, EventKind::Speaking, pending) == (CockpitMode::Speaking, st.1),
        project_step(st, EventKind::ToolStart, pending).0 == CockpitMode::ToolActive,
        st.1 < u16::MAX ==> project_step(st, EventKind::ToolStart, pending).1 == st.1 + 1,
        project_step(st, EventKind::ToolFinish, pending).0 == st.0,
        st.1 > 0 ==> project_step(st, EventKind::ToolFinish, pending).1 == st.1 - 1,
        st.1 == 0 ==> project_step(st, EventKind::ToolFinish, pending).1 == 0,
        !pending ==> project_step(st, EventKind::Idle, pending) == (CockpitMode::Idle, st.1),
        pending ==> project_step(st, EventKind::Idle, pending) == st,
{
}

/// A cockpit with no pending approval whose latest event is an error shows the
/// error mode, with the armed input label; whose latest event is a warning, it
/// shows what it showed before the warning.
pub proof fn law_latest_error_shows_error(reachable: bool, ks: Seq<EventKind>)
    ensures
        projection_spec(reachable, ks.push(EventKind::Error), false).0 == CockpitMode::Error,
        voice_label_spec(CockpitMode::Error) == "ARMED"@,
        projection_spec(reachable, ks.push(EventKind::Warning), false) == projection_spec(
            reachable,
            ks,
            false,
        ),
{
    assert(ks.push(EventKind::Error).drop_last() =~= ks);
    assert(ks.push(EventKind::Warning).drop_last() =~= ks);
}

/// The input label for each mode, and which one the cockpit shows: a live
/// backend's own label is kept, otherwise the mode's label.
pub proof fn law_mode_input_labels(reported: Seq<char>, m: CockpitMode)
    ensures
        voice_label_spec(CockpitMode::Listening) == "LISTENING"@,
        voice_label_spec(CockpitMode::WakeDetected) == "LISTENING"@,
        voice_label_spec(CockpitMode::Speaking) == "SPEAKING"@,
        voice_label_spec(CockpitMode::ApprovalNeeded) == "GATED"@,
        voice_label_spec(CockpitMode::Disconnected) == "KEYBOARD"@,
        voice_label_spec(CockpitMode::Idle) == "ARMED"@,
        voice_label_spec(CockpitMode::Processing) == "ARMED"@,
        voice_label_spec(CockpitMode::ToolActive) == "ARMED"@,
        voice_label_spec(CockpitMode::Error) == "ARMED"@,
        projected_voice_label(true, reported, m) == reported,
        projected_voice_label(false, reported, m) == voice_label_spec(m),
{
}

/// While an approval is pending the cockpit shows the approval mode, and its
/// input label reads `GATED` unless a live backend reported its own.
pub proof fn law_pending_approval_shows_approval(
    reachable: bool,
    ks: Seq<EventKind>,
    backend: BackendKind,
    ev: Seq<(EventKind, Seq<char>)>,
    reported: Seq<char>,
)
    ensures
        projection_spec(reachable, ks, true).0 == CockpitMode::ApprovalNeeded,
        projected_voice_label(
            is_runtime_snapshot_spec(backend, true, ev),
            reported,
            CockpitMode::ApprovalNeeded,
        ) == "GATED"@,
{
}

/// A tool start followed by its finish leaves the count of active tools where
/// it was (below the counter's ceiling).
pub proof fn law_tool_start_finish_balance(st: (CockpitMode, u16), pending: bool)
    requires
        st.1 < u16::MAX,
    ensures
        project_step(project_step(st, EventKind::ToolStart, pending), EventKind::ToolFinish, pending).1
            == st.1,
        project_step(st, EventKind::ToolStart, pending).0 == CockpitMode::ToolActive,
{
}

/// Projection depends on the events only through their order and kinds:
/// events appended later are folded on top of the earlier result.
pub proof fn law_projection_extends(
    init: (CockpitMode, u16),
    ks: Seq<EventKind>,
    k: EventKind,
    pending: bool,
)
    ensures
        project_fold(init, ks.push(k), pending) == project_step(
            project_fold(init, ks, pending),
            k,
            pending,
        ),
{
    assert(ks.push(k).drop_last() =~= ks);
}

/// Projecting a cockpit twice gives what projecting it once gives.
pub proof fn law_projection_idempotent(
    reachable: bool,
    ks: Seq<EventKind>,
    pending: bool,
    backend: BackendKind,
    ev: Seq<(EventKind, Seq<char>)>,
    reported: Seq<char>,
)
    ensures
        ({
            let m = projection_spec(reachable, ks, pending).0;
            let preserve = is_runtime_snapshot_spec(backend, pending, ev);
            let v1 = projected_voice_label(preserve, reported, m);
            projected_voice_label(preserve, v1, m) == v1
        }),
{
}

} // verus!
