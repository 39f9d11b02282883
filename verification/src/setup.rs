//! The guided setup's steps: what each reports for a backend's capability.
use vstd::prelude::*;
use crate::domain::CapabilitySnapshot;
use crate::text::{concat2, concat3, string_from_str};

verus! {

/// One numbered step of the setup wizard.
#[derive(Debug, Clone)]
pub struct SetupStep {
    pub number: usize,
    pub name: String,
    pub ok: bool,
    pub detail: String,
}

/// The view of a step: its number, name, whether it passed, and its detail.
pub open spec fn step_view(s: SetupStep) -> (int, Seq<char>, bool, Seq<char>) {
    (s.number as int, s.name@, s.ok, s.detail@)
}

/// The views of a list of steps.
pub open spec fn steps_view(v: Seq<SetupStep>) -> Seq<(int, Seq<char>, bool, Seq<char>)> {
    v.map_values(|s: SetupStep| step_view(s))
}

/// The setup wizard's seven steps for an adapter and its capability.
pub open spec fn setup_steps_spec(adapter_label: Seq<char>, cap: CapabilitySnapshot) -> Seq<
    (int, Seq<char>, bool, Seq<char>),
> {
    seq![
        (1int, "Install and PATH check"@, true, "avu binary is running from this shell"@),
        (2int, "Backend selection"@, true, "selected backend adapter: "@ + adapter_label),
        (3int, "Backend health verification"@, cap.reachable, if cap.reachable {
            "backend reachable or fixture backend active"@
        } else {
            "backend missing/unhealthy; use hermes setup or openclaw onboard, then rerun avu setup --quick"@
        }),
        (4int, "Capability discovery"@, cap.reachable, if cap.reachable {
            "events/approvals/control capability snapshot produced"@
        } else {
            "backend unreachable; capability snapshot is degraded and control actions stay disabled"@
        }),
        (5int, "Permission posture"@, true,
            "defaulting to backend-owned approvals; Avu only routes explicit responses"@),
        (6int, "Wake and microphone"@, true,
            "keyboard-only fallback enabled; wake can be enabled later"@),
        (7int, "Safety rehearsal"@, cap.approvals, if cap.approvals {
            "fixture approval path available; destructive approvals require second confirmation"@
        } else {
            "approval capability unavailable; approval controls disabled until backend supports them"@
        }),
    ]
}

fn step(number: usize, name: &str, ok: bool, detail: String) -> (r: SetupStep)
    ensures
        step_view(r) == (number as int, name@, ok, detail@),
{
    SetupStep { number, name: string_from_str(name), ok, detail }
}

/// The setup wizard's steps for an adapter and its capability.
pub fn setup_steps(adapter_label: &str, capability: &CapabilitySnapshot) -> (r: Vec<SetupStep>)
    ensures
        steps_view(r@) == setup_steps_spec(adapter_label@, *capability),
{
    let mut r: Vec<SetupStep> = Vec::new();
    r.push(step(1, "Install and PATH check", true, string_from_str("avu binary is running from this shell")));
    r.push(step(2, "Backend selection", true, concat2("selected backend adapter: ", adapter_label)));
    let health = if capability.reachable {
        string_from_str("backend reachable or fixture backend active")
    } else {
        string_from_str(
            "backend missing/unhealthy; use hermes setup or openclaw onboard, then rerun avu setup --quick",
        )
    };
    r.push(step(3, "Backend health verification", capability.reachable, health));
    let discovery = if capability.reachable {
        string_from_str("events/approvals/control capability snapshot produced")
    } else {
        string_from_str(
            "backend unreachable; capability snapshot is degraded and control actions stay disabled",
        )
    };
    r.push(step(4, "Capability discovery", capability.reachable, discovery));
    r.push(
        step(
            5,
            "Permission posture",
            true,
            string_from_str("defaulting to backend-owned approvals; Avu only routes explicit responses"),
        ),
    );
    r.push(
        step(
            6,
            "Wake and microphone",
            true,
            string_from_str("keyboard-only fallback enabled; wake can be enabled later"),
        ),
    );
    let rehearsal = if capability.approvals {
        string_from_str(
            "fixture approval path available; destructive approvals require second confirmation",
        )
    } else {
        string_from_str(
            "approval capability unavailable; approval controls disabled until backend supports them",
        )
    };
    r.push(step(7, "Safety rehearsal", capability.approvals, rehearsal));
    assert(steps_view(r@) =~= setup_steps_spec(adapter_label@, *capability));
    r
}

/// The hint printed after the setup steps.
pub fn setup_next_hint(adapter_label: &str) -> (r: String)
    ensures
        r@ == "Next: run `avu doctor --backend "@ + adapter_label@
            + "` and `avu tui --backend fake --once`."@,
{
    concat3("Next: run `avu doctor --backend ", adapter_label, "` and `avu tui --backend fake --once`.")
}

} // verus!
