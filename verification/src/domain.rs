//! The cockpit's domain model: backends, modes, approvals, events and the
//! cockpit state that the terminal UI renders.

use vstd::prelude::*;
use crate::clock::now_millis;
use crate::runtime::{Reported, RuntimeSnapshot};
use crate::text::{concat2, string_from_str};

verus! {

#[derive(Debug, Clone, Copy, PartialEq, Eq, Structural)]
pub enum BackendKind {
    Fake,
    Hermes,
    OpenClaw,
    Remote,
    Missing,
}

#[derive(Debug, Clone, Copy, PartialEq, Eq, Structural)]
pub enum CockpitMode {
    Idle,
    Listening,
    WakeDetected,
    Processing,
    ToolActive,
    ApprovalNeeded,
    Speaking,
    Disconnected,
    Error,
}

/// The label shown for each cockpit mode.
pub open spec fn mode_label(m: CockpitMode) -> Seq<char> {
    match m {
        CockpitMode::Idle => "IDLE"@,
        CockpitMode::Listening => "LISTENING"@,
        CockpitMode::WakeDetected => "WAKE"@,
        CockpitMode::Processing => "PROCESSING"@,
        CockpitMode::ToolActive => "TOOL ACTIVE"@,
        CockpitMode::ApprovalNeeded => "APPROVAL"@,
        CockpitMode::Speaking => "SPEAKING"@,
        CockpitMode::Disconnected => "DISCONNECTED"@,
        CockpitMode::Error => "ERROR"@,
    }
}

impl CockpitMode {
    pub fn label(&self) -> (r: &'static str)
        ensures
            r@ == mode_label(*self),
    {
        match self {
            CockpitMode::Idle => "IDLE",
            CockpitMode::Listening => "LISTENING",
            CockpitMode::WakeDetected => "WAKE",
            CockpitMode::Processing => "PROCESSING",
            CockpitMode::ToolActive => "TOOL ACTIVE",
            CockpitMode::ApprovalNeeded => "APPROVAL",
            CockpitMode::Speaking => "SPEAKING",
            CockpitMode::Disconnected => "DISCONNECTED",
            CockpitMode::Error => "ERROR",
        }
    }
}

#[derive(Debug, Clone, Copy, PartialEq, Eq, Structural)]
pub enum Severity {
    Safe,
    Medium,
    High,
    Destructive,
}

#[derive(Debug, Clone, Copy, PartialEq, Eq, Structural)]
pub enum PermissionPosture {
    ObserveOnly,
    ObserveNotify,
    RouteSafeControls,
    RouteApprovalResponses,
}

/// The view of a list of strings.
pub open spec fn strs(v: Seq<String>) -> Seq<Seq<char>> {
    v.map_values(|s: String| s@)
}

#[derive(Debug, Clone)]
pub struct CapabilitySnapshot {
    pub backend: BackendKind,
    pub reachable: bool,
    pub events: bool,
    pub approvals: bool,
    pub interrupt: bool,
    pub pause_resume: bool,
    pub sessions_list: bool,
    pub transcript: bool,
    pub wake_available: bool,
    pub permission_posture: PermissionPosture,
    pub notes: Vec<String>,
}

/// The note of a capability snapshot for a backend command missing from PATH.
pub open spec fn not_found_note(name: Seq<char>) -> Seq<char> {
    name + " command was not found on PATH"@
}

/// The fixture backend's capabilities: everything but wake, with approvals
/// routed, and a note that it is safe for rehearsal.
pub open spec fn fake_capabilities_spec(c: CapabilitySnapshot) -> bool {
    &&& c.backend == BackendKind::Fake
    &&& c.reachable && c.events && c.approvals && c.interrupt && c.pause_resume
    &&& c.sessions_list && c.transcript && !c.wake_available
    &&& c.permission_posture == PermissionPosture::RouteApprovalResponses
    &&& strs(c.notes@) == seq!["fixture backend: safe for setup rehearsal"@]
}

impl CapabilitySnapshot {
    /// The fixture backend's capabilities: everything but wake, with approvals routed.
    pub fn fake() -> (r: Self)
        ensures
            fake_capabilities_spec(r),
    {
        let mut notes: Vec<String> = Vec::new();
        notes.push(string_from_str("fixture backend: safe for setup rehearsal"));
        let r = CapabilitySnapshot {
            backend: BackendKind::Fake,
            reachable: true,
            events: true,
            approvals: true,
            interrupt: true,
            pause_resume: true,
            sessions_list: true,
            transcript: true,
            wake_available: false,
            permission_posture: PermissionPosture::RouteApprovalResponses,
            notes,
        };
        assert(strs(r.notes@) =~= seq!["fixture backend: safe for setup rehearsal"@]);
        r
    }

    /// Capabilities of a backend whose command is not on PATH: nothing, observe only.
    pub fn missing(name: &str) -> (r: Self)
        ensures
            r.backend == BackendKind::Missing,
            !r.reachable && !r.events && !r.approvals && !r.interrupt && !r.pause_resume,
            !r.sessions_list && !r.transcript && !r.wake_available,
            r.permission_posture == PermissionPosture::ObserveOnly,
            strs(r.notes@) == seq![not_found_note(name@)],
    {
        let mut notes: Vec<String> = Vec::new();
        notes.push(concat2(name, " command was not found on PATH"));
        let r = CapabilitySnapshot {
            backend: BackendKind::Missing,
            reachable: false,
            events: false,
            approvals: false,
            interrupt: false,
            pause_resume: false,
            sessions_list: false,
            transcript: false,
            wake_available: false,
            permission_posture: PermissionPosture::ObserveOnly,
            notes,
        };
        assert(strs(r.notes@) =~= seq![not_found_note(name@)]);
        r
    }

    /// Capabilities as a runtime snapshot reports them: a capability counts only
    /// where the backend reported it as present.
    pub fn from_runtime(snapshot: &RuntimeSnapshot) -> (r: Self)
        ensures
            r.backend == snapshot.backend,
            r.reachable == snapshot.reachable,
            r.events == reported_true(snapshot.events),
            r.approvals == reported_true(snapshot.approvals),
            r.interrupt == reported_true(snapshot.interrupt),
            r.pause_resume == reported_true(snapshot.pause_resume),
            r.sessions_list == reported_true(snapshot.sessions_list),
            r.transcript == reported_true(snapshot.transcript),
            r.wake_available == reported_true(snapshot.wake_available),
            r.permission_posture == snapshot.permission_posture,
            strs(r.notes@) == strs(snapshot.notes@),
    {
        CapabilitySnapshot {
            backend: snapshot.backend,
            reachable: snapshot.reachable,
            events: reported_bool_value(&snapshot.events),
            approvals: reported_bool_value(&snapshot.approvals),
            interrupt: reported_bool_value(&snapshot.interrupt),
            pause_resume: reported_bool_value(&snapshot.pause_resume),
            sessions_list: reported_bool_value(&snapshot.sessions_list),
            transcript: reported_bool_value(&snapshot.transcript),
            wake_available: reported_bool_value(&snapshot.wake_available),
            permission_posture: snapshot.permission_posture,
            notes: clone_strings(&snapshot.notes),
        }
    }
}

/// A copy of a list of strings.
pub fn clone_strings(v: &Vec<String>) -> (r: Vec<String>)
    ensures
        strs(r@) == strs(v@),
{
    let mut r: Vec<String> = Vec::new();
    let mut i: usize = 0;
    while i < v.len()
        invariant
            i <= v.len(),
            r@.len() == i,
            strs(r@) == strs(v@.take(i as int)),
        decreases v.len() - i,
    {
        let ghost old_r = r@;
        let c = v[i].clone();
        r.push(c);
        proof {
            assert(strs(old_r) =~= strs(v@.take(i as int)));
            assert forall|j: int| 0 <= j < i + 1 implies #[trigger] strs(r@)[j] == strs(
                v@.take(i + 1),
            )[j] by {
                if j < i {
                    assert(strs(old_r)[j] == strs(v@.take(i as int))[j]);
                }
            }
            assert(strs(r@) =~= strs(v@.take(i + 1)));
        }
        i += 1;
    }
    assert(v@.take(v.len() as int) =~= v@);
    r
}

#[derive(Debug, Clone)]
pub struct ApprovalRequest {
    pub id: String,
    pub backend: BackendKind,
    pub summary: String,
    pub command: Option<String>,
    pub severity: Severity,
    pub requires_second_confirmation: bool,
}

#[derive(Debug, Clone, Copy, PartialEq, Eq, Structural)]
pub enum EventKind {
    Listening,
    WakeWord,
    Processing,
    ToolStart,
    ToolFinish,
    ApprovalRequested,
    ApprovalRouted,
    ResponseStream,
    Speaking,
    Idle,
    Warning,
    Error,
}

/// One entry of the cockpit's activity log. `at` is Unix time in milliseconds.
#[derive(Debug, Clone)]
pub struct CockpitEvent {
    pub at: i64,
    pub kind: EventKind,
    pub label: String,
}

impl CockpitEvent {
    /// An event stamped with the current time.
    pub fn now(kind: EventKind, label: &str) -> (r: Self)
        ensures
            r.kind == kind,
            r.label@ == label@,
    {
        CockpitEvent { at: now_millis(), kind, label: string_from_str(label) }
    }
}

#[derive(Debug, Clone)]
pub struct ModuleStatus {
    pub name: String,
    pub level: u8,
    pub active: bool,
    pub detail: String,
}

/// A module status row, as plain values.
pub open spec fn module_view(m: ModuleStatus) -> (Seq<char>, u8, bool, Seq<char>) {
    (m.name@, m.level, m.active, m.detail@)
}

/// The view of a list of module rows.
pub open spec fn modules_view(v: Seq<ModuleStatus>) -> Seq<(Seq<char>, u8, bool, Seq<char>)> {
    v.map_values(|m: ModuleStatus| module_view(m))
}

#[derive(Debug, Clone)]
pub struct CockpitState {
    pub app_name: String,
    pub mode: CockpitMode,
    pub backend: BackendKind,
    pub backend_label: String,
    pub model_label: String,
    pub voice_label: String,
    pub tools_active: u16,
    pub cpu_percent: u8,
    pub memory_percent: u8,
    pub capabilities: CapabilitySnapshot,
    pub modules: Vec<ModuleStatus>,
    pub events: Vec<CockpitEvent>,
    pub pending_approval: Option<ApprovalRequest>,
}

fn module(name: &str, level: u8, active: bool, detail: &str) -> (r: ModuleStatus)
    ensures
        module_view(r) == (name@, level, active, detail@),
{
    ModuleStatus { name: string_from_str(name), level, active, detail: string_from_str(detail) }
}

/// The module rows of the fixture cockpit.
pub open spec fn default_modules_spec() -> Seq<(Seq<char>, u8, bool, Seq<char>)> {
    seq![
        ("INPUT"@, 85u8, true, "mic armed"@),
        ("VOICE"@, 92u8, true, "wake visible"@),
        ("TOOLS"@, 72u8, true, "2 active"@),
        ("NET"@, 64u8, true, "gateway ok"@),
        ("AGENT"@, 80u8, true, "attached"@),
        ("NLP"@, 58u8, true, "intent ready"@),
        ("TTS"@, 15u8, false, "muted"@),
    ]
}

/// The module rows shown by the fixture cockpit.
pub fn default_modules() -> (r: Vec<ModuleStatus>)
    ensures
        modules_view(r@) == default_modules_spec(),
{
    let mut r: Vec<ModuleStatus> = Vec::new();
    r.push(module("INPUT", 85, true, "mic armed"));
    r.push(module("VOICE", 92, true, "wake visible"));
    r.push(module("TOOLS", 72, true, "2 active"));
    r.push(module("NET", 64, true, "gateway ok"));
    r.push(module("AGENT", 80, true, "attached"));
    r.push(module("NLP", 58, true, "intent ready"));
    r.push(module("TTS", 15, false, "muted"));
    assert(modules_view(r@) =~= default_modules_spec());
    r
}

/// A reported value is present and true.
pub open spec fn reported_true(v: Reported<bool>) -> bool {
    v == Reported::Value(true)
}

/// Level of a module whose state is a reported flag: full when reported true.
pub open spec fn bool_level_spec(v: Reported<bool>) -> u8 {
    if reported_true(v) {
        100
    } else {
        0
    }
}

/// Detail text of a module whose state is a reported flag.
pub open spec fn detail_bool_spec(v: Reported<bool>, yes: Seq<char>, no: Seq<char>) -> Seq<char> {
    match v {
        Reported::Value(true) => yes,
        Reported::Value(false) => no,
        Reported::Unavailable => "unavailable"@,
        Reported::Unreported => "unreported"@,
    }
}

/// A module row whose state follows a level: active when the level is above zero.
pub open spec fn runtime_module_spec(name: Seq<char>, level: u8, detail: Seq<char>) -> (
    Seq<char>,
    u8,
    bool,
    Seq<char>,
) {
    (name, level, level > 0, detail)
}

/// The module rows of a live backend, from the wake, events, reachability,
/// sessions and transcript it reports.
pub open spec fn runtime_modules_of(
    wake: Reported<bool>,
    events: Reported<bool>,
    reachable: bool,
    sessions: Reported<bool>,
    transcript: Reported<bool>,
) -> Seq<(Seq<char>, u8, bool, Seq<char>)> {
    seq![
        runtime_module_spec("INPUT"@, bool_level_spec(wake), detail_bool_spec(wake, "wake input"@, "keyboard only"@)),
        runtime_module_spec("VOICE"@, bool_level_spec(wake), detail_bool_spec(wake, "wake available"@, "wake disabled"@)),
        runtime_module_spec("TOOLS"@, bool_level_spec(events), detail_bool_spec(events, "events reported"@, "events disabled"@)),
        runtime_module_spec("NET"@, if reachable { 100u8 } else { 0u8 }, if reachable { "reachable"@ } else { "unreachable"@ }),
        runtime_module_spec("AGENT"@, bool_level_spec(sessions), detail_bool_spec(sessions, "sessions reported"@, "sessions unavailable"@)),
        runtime_module_spec("NLP"@, bool_level_spec(transcript), detail_bool_spec(transcript, "transcript reported"@, "transcript unavailable"@)),
        runtime_module_spec("TTS"@, 0u8, "unreported"@),
    ]
}

/// The module rows of a live backend, from what its snapshot reports.
pub open spec fn runtime_modules_spec(s: RuntimeSnapshot) -> Seq<(Seq<char>, u8, bool, Seq<char>)> {
    runtime_modules_of(s.wake_available, s.events, s.reachable, s.sessions_list, s.transcript)
}

fn runtime_module(name: &str, level: u8, detail: &str) -> (r: ModuleStatus)
    ensures
        module_view(r) == runtime_module_spec(name@, level, detail@),
{
    module(name, level, level > 0, detail)
}

fn reported_bool_value(v: &Reported<bool>) -> (r: bool)
    ensures
        r == reported_true(*v),
{
    match v {
        Reported::Value(b) => *b,
        _ => false,
    }
}

fn bool_level(v: &Reported<bool>) -> (r: u8)
    ensures
        r == bool_level_spec(*v),
{
    if reported_bool_value(v) {
        100
    } else {
        0
    }
}

fn detail_bool<'a>(v: &Reported<bool>, yes: &'a str, no: &'a str) -> (r: &'a str)
    ensures
        r@ == detail_bool_spec(*v, yes@, no@),
{
    match v {
        Reported::Value(true) => yes,
        Reported::Value(false) => no,
        Reported::Unavailable => "unavailable",
        Reported::Unreported => "unreported",
    }
}

fn modules_for_runtime(s: &RuntimeSnapshot) -> (r: Vec<ModuleStatus>)
    ensures
        modules_view(r@) == runtime_modules_spec(*s),
{
    let mut r: Vec<ModuleStatus> = Vec::new();
    r.push(
        runtime_module(
            "INPUT",
            bool_level(&s.wake_available),
            detail_bool(&s.wake_available, "wake input", "keyboard only"),
        ),
    );
    r.push(
        runtime_module(
            "VOICE",
            bool_level(&s.wake_available),
            detail_bool(&s.wake_available, "wake available", "wake disabled"),
        ),
    );
    r.push(
        runtime_module(
            "TOOLS",
            bool_level(&s.events),
            detail_bool(&s.events, "events reported", "events disabled"),
        ),
    );
    r.push(
        runtime_module(
            "NET",
            if s.reachable {
                100
            } else {
                0
            },
            if s.reachable {
                "reachable"
            } else {
                "unreachable"
            },
        ),
    );
    r.push(
        runtime_module(
            "AGENT",
            bool_level(&s.sessions_list),
            detail_bool(&s.sessions_list, "sessions reported", "sessions unavailable"),
        ),
    );
    r.push(
        runtime_module(
            "NLP",
            bool_level(&s.transcript),
            detail_bool(&s.transcript, "transcript reported", "transcript unavailable"),
        ),
    );
    r.push(runtime_module("TTS", 0, "unreported"));
    assert(modules_view(r@) =~= runtime_modules_spec(*s));
    r
}

/// Text shown for a reported string.
pub open spec fn reported_string_spec(v: Reported<String>) -> Seq<char> {
    match v {
        Reported::Value(s) => s@,
        Reported::Unavailable => "unavailable"@,
        Reported::Unreported => "unreported"@,
    }
}

/// Number shown for a reported percentage: zero when not reported.
pub open spec fn reported_u8_spec(v: Reported<u8>) -> u8 {
    match v {
        Reported::Value(n) => n,
        _ => 0,
    }
}

/// The voice status a live backend shows: the voice setup it reports
/// (such as `STT groq · TTS gemini/Kore`), or else whether it can wake.
pub open spec fn runtime_voice_label_spec(voice: Reported<String>, wake: Reported<bool>) -> Seq<char> {
    match voice {
        Reported::Value(v) => v@,
        _ => reported_bool_spec(wake, "WAKE"@, "KEYBOARD"@, "unreported"@),
    }
}

/// Text shown for a reported flag.
pub open spec fn reported_bool_spec(
    v: Reported<bool>,
    yes: Seq<char>,
    no: Seq<char>,
    unknown: Seq<char>,
) -> Seq<char> {
    match v {
        Reported::Value(true) => yes,
        Reported::Value(false) => no,
        Reported::Unavailable => "unavailable"@,
        Reported::Unreported => unknown,
    }
}

fn reported_string(v: &Reported<String>) -> (r: String)
    ensures
        r@ == reported_string_spec(*v),
{
    match v {
        Reported::Value(s) => s.clone(),
        Reported::Unavailable => string_from_str("unavailable"),
        Reported::Unreported => string_from_str("unreported"),
    }
}

fn reported_u8(v: &Reported<u8>) -> (r: u8)
    ensures
        r == reported_u8_spec(*v),
{
    match v {
        Reported::Value(n) => *n,
        _ => 0,
    }
}

fn reported_bool(v: &Reported<bool>, yes: &str, no: &str, unknown: &str) -> (r: String)
    ensures
        r@ == reported_bool_spec(*v, yes@, no@, unknown@),
{
    match v {
        Reported::Value(true) => string_from_str(yes),
        Reported::Value(false) => string_from_str(no),
        Reported::Unavailable => string_from_str("unavailable"),
        Reported::Unreported => string_from_str(unknown),
    }
}

/// An event's kind and label, without its time.
pub open spec fn event_view(e: CockpitEvent) -> (EventKind, Seq<char>) {
    (e.kind, e.label@)
}

/// Kinds and labels of a list of events.
pub open spec fn events_view(v: Seq<CockpitEvent>) -> Seq<(EventKind, Seq<char>)> {
    v.map_values(|e: CockpitEvent| event_view(e))
}

/// Two events agree in time, kind and label.
pub open spec fn same_event(a: CockpitEvent, b: CockpitEvent) -> bool {
    a.at == b.at && a.kind == b.kind && a.label@ == b.label@
}

/// A copy of an event.
pub fn clone_event(e: &CockpitEvent) -> (r: CockpitEvent)
    ensures
        same_event(r, *e),
{
    CockpitEvent { at: e.at, kind: e.kind, label: e.label.clone() }
}

/// A copy of a list of events.
pub fn clone_events(v: &Vec<CockpitEvent>) -> (r: Vec<CockpitEvent>)
    ensures
        r@.len() == v@.len(),
        forall|i: int| 0 <= i < v@.len() ==> same_event(#[trigger] r@[i], v@[i]),
        events_view(r@) == events_view(v@),
{
    let mut r: Vec<CockpitEvent> = Vec::new();
    let mut i: usize = 0;
    while i < v.len()
        invariant
            i <= v.len(),
            r@.len() == i,
            forall|j: int| 0 <= j < i ==> same_event(#[trigger] r@[j], v@[j]),
        decreases v.len() - i,
    {
        r.push(clone_event(&v[i]));
        i += 1;
    }
    assert(events_view(r@) =~= events_view(v@));
    r
}

/// The fixture cockpit: a destructive approval pending on a fake backend,
/// its seven fixture events, its modules and the fixture capabilities.
pub open spec fn fake_cockpit_spec(r: CockpitState) -> bool {
    &&& r.app_name@ == "Avu"@
    &&& r.mode == CockpitMode::ApprovalNeeded
    &&& r.backend == BackendKind::Fake
    &&& r.backend_label@ == "HERMES/FIXTURE"@
    &&& r.model_label@ == "local"@
    &&& r.voice_label@ == "LISTENING"@
    &&& r.tools_active == 2
    &&& r.cpu_percent == 12
    &&& r.memory_percent == 28
    &&& fake_capabilities_spec(r.capabilities)
    &&& modules_view(r.modules@) == default_modules_spec()
    &&& events_view(r.events@) == seq![
        (EventKind::Listening, "listening"@),
        (EventKind::WakeWord, "wake_word"@),
        (EventKind::Processing, "processing"@),
        (EventKind::ToolStart, "tool:web.search"@),
        (EventKind::ToolStart, "tool:weather"@),
        (EventKind::ApprovalRequested, "approval:terminal"@),
        (EventKind::ResponseStream, "response_stream"@),
    ]
    &&& r.pending_approval is Some
    &&& r.pending_approval->0.id@ == "approval-fixture-001"@
    &&& r.pending_approval->0.backend == BackendKind::Hermes
    &&& r.pending_approval->0.summary@ == "Hermes is asking to run a cache cleanup command"@
    &&& r.pending_approval->0.command is Some
    &&& r.pending_approval->0.command->0@ == "rm -rf build-cache"@
    &&& r.pending_approval->0.severity == Severity::Destructive
    &&& r.pending_approval->0.requires_second_confirmation
}

impl CockpitState {
    /// The fixture cockpit: a destructive approval pending on a fake backend.
    pub fn fake_listening() -> (r: Self)
        ensures
            fake_cockpit_spec(r),
    {
        let approval = ApprovalRequest {
            id: string_from_str("approval-fixture-001"),
            backend: BackendKind::Hermes,
            summary: string_from_str("Hermes is asking to run a cache cleanup command"),
            command: Some(string_from_str("rm -rf build-cache")),
            severity: Severity::Destructive,
            requires_second_confirmation: true,
        };
        let mut events: Vec<CockpitEvent> = Vec::new();
        events.push(CockpitEvent::now(EventKind::Listening, "listening"));
        events.push(CockpitEvent::now(EventKind::WakeWord, "wake_word"));
        events.push(CockpitEvent::now(EventKind::Processing, "processing"));
        events.push(CockpitEvent::now(EventKind::ToolStart, "tool:web.search"));
        events.push(CockpitEvent::now(EventKind::ToolStart, "tool:weather"));
        events.push(CockpitEvent::now(EventKind::ApprovalRequested, "approval:terminal"));
        events.push(CockpitEvent::now(EventKind::ResponseStream, "response_stream"));
        let r = CockpitState {
            app_name: string_from_str("Avu"),
            mode: CockpitMode::ApprovalNeeded,
            backend: BackendKind::Fake,
            backend_label: string_from_str("HERMES/FIXTURE"),
            model_label: string_from_str("local"),
            voice_label: string_from_str("LISTENING"),
            tools_active: 2,
            cpu_percent: 12,
            memory_percent: 28,
            capabilities: CapabilitySnapshot::fake(),
            modules: default_modules(),
            events,
            pending_approval: Some(approval),
        };
        assert(events_view(r.events@) =~= seq![
            (EventKind::Listening, "listening"@),
            (EventKind::WakeWord, "wake_word"@),
            (EventKind::Processing, "processing"@),
            (EventKind::ToolStart, "tool:web.search"@),
            (EventKind::ToolStart, "tool:weather"@),
            (EventKind::ApprovalRequested, "approval:terminal"@),
            (EventKind::ResponseStream, "response_stream"@),
        ]);
        r
    }

    /// The cockpit of a live backend as its runtime snapshot reports it: no
    /// fixture values, no pending approval, nothing counted that was not reported.
    pub fn from_runtime(snapshot: RuntimeSnapshot) -> (r: Self)
        ensures
            r.app_name@ == "Avu"@,
            r.mode == (if snapshot.reachable {
                CockpitMode::Idle
            } else {
                CockpitMode::Disconnected
            }),
            r.backend == snapshot.backend,
            r.backend_label@ == snapshot.backend_label@,
            r.model_label@ == reported_string_spec(snapshot.model_label),
            r.voice_label@ == runtime_voice_label_spec(snapshot.voice_label, snapshot.wake_available),
            r.tools_active == 0,
            r.cpu_percent == reported_u8_spec(snapshot.cpu_percent),
            r.memory_percent == reported_u8_spec(snapshot.memory_percent),
            r.capabilities.backend == snapshot.backend,
            r.capabilities.reachable == snapshot.reachable,
            r.capabilities.events == reported_true(snapshot.events),
            r.capabilities.approvals == reported_true(snapshot.approvals),
            r.capabilities.interrupt == reported_true(snapshot.interrupt),
            r.capabilities.pause_resume == reported_true(snapshot.pause_resume),
            r.capabilities.sessions_list == reported_true(snapshot.sessions_list),
            r.capabilities.transcript == reported_true(snapshot.transcript),
            r.capabilities.wake_available == reported_true(snapshot.wake_available),
            r.capabilities.permission_posture == snapshot.permission_posture,
            strs(r.capabilities.notes@) == strs(snapshot.notes@),
            modules_view(r.modules@) == runtime_modules_spec(snapshot),
            snapshot.log_events.len() > 0 ==> events_view(r.events@) == events_view(
                snapshot.log_events@,
            ),
            snapshot.log_events.len() > 0 ==> r.events@.len() == snapshot.log_events@.len() && (
            forall|i: int|
                0 <= i < r.events@.len() ==> same_event(#[trigger] r.events@[i], snapshot.log_events@[i])),
            snapshot.log_events.len() == 0 ==> events_view(r.events@) == seq![
                if snapshot.reachable {
                    (EventKind::Idle, "live backend reported idle"@)
                } else {
                    (EventKind::Warning, "live backend unavailable"@)
                },
            ],
            r.pending_approval is None,
    {
        let mode = if snapshot.reachable {
            CockpitMode::Idle
        } else {
            CockpitMode::Disconnected
        };
        let capabilities = CapabilitySnapshot::from_runtime(&snapshot);
        let events: Vec<CockpitEvent> = if snapshot.log_events.len() > 0 {
            clone_events(&snapshot.log_events)
        } else {
            let mut v: Vec<CockpitEvent> = Vec::new();
            if snapshot.reachable {
                v.push(CockpitEvent::now(EventKind::Idle, "live backend reported idle"));
            } else {
                v.push(CockpitEvent::now(EventKind::Warning, "live backend unavailable"));
            }
            v
        };
        let r = CockpitState {
            app_name: string_from_str("Avu"),
            mode,
            backend: snapshot.backend,
            backend_label: snapshot.backend_label.clone(),
            model_label: reported_string(&snapshot.model_label),
            voice_label: match &snapshot.voice_label {
                Reported::Value(v) => v.clone(),
                _ => reported_bool(&snapshot.wake_available, "WAKE", "KEYBOARD", "unreported"),
            },
            tools_active: 0,
            cpu_percent: reported_u8(&snapshot.cpu_percent),
            memory_percent: reported_u8(&snapshot.memory_percent),
            capabilities,
            modules: modules_for_runtime(&snapshot),
            events,
            pending_approval: None,
        };
        if snapshot.log_events.len() == 0 {
            assert(events_view(r.events@) =~= seq![
                if snapshot.reachable {
                    (EventKind::Idle, "live backend reported idle"@)
                } else {
                    (EventKind::Warning, "live backend unavailable"@)
                },
            ]);
        }
        r
    }
}

} // verus!
