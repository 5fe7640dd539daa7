//! The negotiation itself: walking the plan until an attempt works.

use vstd::prelude::*;
use vstd::string::StringExecFns;
use crate::renderer::adapter::{
    AdapterInfo,
    AdapterView,
    ProbeRequest,
    adapter_or_error,
    no_adapter_text,
    opt_adapter_view,
    request_for,
};
use crate::renderer::attempt::{Attempt, plan_for};
use crate::renderer::diagnostics::{DiagnosticsView, RendererDiagnostics, blank_diagnostics};
use crate::renderer::environment::{BackendEnv, DisplayEnv, compositor_name, compositor_of};
use crate::renderer::launch::{LaunchConfig, LaunchView};
use crate::renderer::selection::{
    RendererSelection,
    SelectionView,
    adapter_report,
    failure_message,
    failure_report,
    failure_text,
    glow_options,
    glow_report,
    wgpu_options,
};
use crate::text::{join, views};

verus! {

/// The error of a negotiation that has no attempt to make.
pub open spec fn exhausted_text() -> Seq<char> {
    "No compatible wgpu adapters found"@
}

/// The failures of the attempts `start..end` of `plan`, each of which found
/// no adapter, in the order of the plan.
pub open spec fn failures_between(plan: Seq<Attempt>, start: int, end: int) -> Seq<Seq<char>> {
    Seq::new(
        (end - start) as nat,
        |k: int| failure_text(plan[start + k].label_text(), no_adapter_text()),
    )
}

/// The report with which the attempt at `index` begins, in a negotiation
/// that started at `start`.
///
/// Software counts as forced when the launch forces it or the environment
/// did. A fallback is in use when the negotiation did not start at the head
/// of the plan or an attempt before this one failed.
pub open spec fn attempt_report(
    launch: LaunchView,
    compositor: Option<Seq<char>>,
    start: int,
    index: int,
) -> DiagnosticsView {
    DiagnosticsView {
        forced_software: launch.force_software || launch.env_forced,
        env_forced: launch.env_forced,
        fallback_used: start > 0 || index > start,
        software_backend: plan_for(launch.platform)[index].software_required(launch),
        compositor,
        ..blank_diagnostics()
    }
}

/// The selection that the attempt at `index` yields, in a negotiation that
/// started at `start` and in which every attempt before `index` failed.
/// `found` is the adapter that a hardware attempt found.
pub open spec fn selection_of(
    launch: LaunchView,
    compositor: Option<Seq<char>>,
    start: int,
    index: int,
    found: Option<AdapterView>,
) -> SelectionView {
    let plan = plan_for(launch.platform);
    let begun = attempt_report(launch, compositor, start, index);
    let failures = failures_between(plan, start, index);
    match plan[index] {
        Attempt::Hardware { .. } => {
            let report = failure_report(adapter_report(begun, found->0), failures);
            SelectionView {
                attempt: index,
                attempt_label: plan[index].label_text(),
                options: wgpu_options(report.software_backend),
                diagnostics: report,
            }
        },
        Attempt::SoftwareOnly { .. } => SelectionView {
            attempt: index,
            attempt_label: plan[index].label_text(),
            options: glow_options(),
            diagnostics: glow_report(failure_report(begun, failures)),
        },
    }
}

/// `acquire` may be asked for the adapter of `attempt`: with the attempt's
/// environment in force and the attempt's request.
pub open spec fn may_probe<F: Fn(&BackendEnv, &ProbeRequest) -> Option<AdapterInfo>>(
    acquire: F,
    launch: LaunchView,
    attempt: Attempt,
) -> bool {
    forall|env: BackendEnv, request: ProbeRequest|
        env@ == attempt.env_for(launch) && request@ == request_for(attempt, launch)
            ==> #[trigger] call_requires(acquire, (&env, &request))
}

/// `acquire` may be asked for the adapter of every hardware attempt of the
/// plan from `start` on.
pub open spec fn probes_allowed<F: Fn(&BackendEnv, &ProbeRequest) -> Option<AdapterInfo>>(
    acquire: F,
    launch: LaunchView,
    start: int,
) -> bool {
    let plan = plan_for(launch.platform);
    forall|i: int|
        start <= i < plan.len() && (#[trigger] plan[i]) is Hardware ==> may_probe(
            acquire,
            launch,
            plan[i],
        )
}

/// `acquire`, asked for the adapter of `attempt`, can answer `found`.
pub open spec fn observed<F: Fn(&BackendEnv, &ProbeRequest) -> Option<AdapterInfo>>(
    acquire: F,
    launch: LaunchView,
    attempt: Attempt,
    found: Option<AdapterInfo>,
) -> bool {
    exists|env: BackendEnv, request: ProbeRequest|
        env@ == attempt.env_for(launch) && request@ == request_for(attempt, launch)
            && #[trigger] call_ensures(acquire, (&env, &request), found)
}

/// A negotiation that starts at `start` chooses the attempt at `index`:
/// every attempt from `start` up to `index` is a hardware attempt for which
/// `acquire` found no adapter, and the attempt at `index` is a hardware
/// attempt for which it found `found`, or the software-only attempt, which
/// asks for none.
pub open spec fn chosen<F: Fn(&BackendEnv, &ProbeRequest) -> Option<AdapterInfo>>(
    acquire: F,
    launch: LaunchView,
    start: int,
    index: int,
    found: Option<AdapterInfo>,
) -> bool {
    let plan = plan_for(launch.platform);
    &&& 0 <= start <= index < plan.len()
    &&& forall|j: int|
        start <= j < index ==> (#[trigger] plan[j]) is Hardware && observed(
            acquire,
            launch,
            plan[j],
            None,
        )
    &&& match plan[index] {
        Attempt::Hardware { .. } => found is Some && observed(acquire, launch, plan[index], found),
        Attempt::SoftwareOnly { .. } => found is None,
    }
}

/// The report with which every attempt of a negotiation begins, before the
/// attempt itself has a say.
pub fn base_diagnostics(launch: &LaunchConfig, display: &DisplayEnv) -> (diagnostics:
    RendererDiagnostics)
    ensures
        diagnostics@ == (DiagnosticsView {
            forced_software: launch.force_software || launch.env_forced,
            env_forced: launch.env_forced,
            compositor: compositor_of(display@),
            ..blank_diagnostics()
        }),
{
    let mut diagnostics = RendererDiagnostics::new();
    diagnostics.env_forced = launch.env_forced;
    diagnostics.compositor = compositor_name(display);
    diagnostics.forced_software = launch.force_software || launch.env_forced;
    diagnostics
}

/// Negotiates the renderer: makes the attempts of the plan in order, from
/// `start_attempt` on, and returns the selection of the first that works.
///
/// Each attempt is put into force in `env` before `acquire` is asked for its
/// adapter. A hardware attempt works when `acquire` finds an adapter; the
/// software-only attempt asks for none and always works. Since every plan
/// ends in it, the negotiation fails only where `start_attempt` lies beyond
/// the plan, and then leaves `env` as it was.
pub fn detect<F: Fn(&BackendEnv, &ProbeRequest) -> Option<AdapterInfo>>(
    launch: &LaunchConfig,
    display: &DisplayEnv,
    start_attempt: usize,
    env: &mut BackendEnv,
    acquire: F,
) -> (result: Result<RendererSelection, String>)
    requires
        probes_allowed(acquire, launch@, start_attempt as int),
    ensures
        match result {
            Ok(selection) => {
                &&& exists|found: Option<AdapterInfo>|
                    {
                        &&& chosen(
                            acquire,
                            launch@,
                            start_attempt as int,
                            selection.attempt as int,
                            found,
                        )
                        &&& selection@ == selection_of(
                            launch@,
                            compositor_of(display@),
                            start_attempt as int,
                            selection.attempt as int,
                            opt_adapter_view(found),
                        )
                    }
                &&& final(env)@ == plan_for(launch.platform)[selection.attempt as int].env_for(
                    launch@,
                )
            },
            Err(message) => {
                &&& start_attempt >= plan_for(launch.platform).len()
                &&& message@ == exhausted_text()
                &&& final(env)@ == old(env)@
            },
        },
{
    let diagnostics = base_diagnostics(launch, display);
    let plan = launch.fallback_plan();
    let mut failures: Vec<String> = Vec::new();
    let mut index = start_attempt;
    while index < plan.len()
        invariant
            plan@ == plan_for(launch.platform),
            start_attempt <= index,
            start_attempt < plan.len() ==> index < plan.len(),
            start_attempt >= plan.len() ==> index == start_attempt,
            index == start_attempt ==> env@ == old(env)@,
            diagnostics@ == (DiagnosticsView {
                forced_software: launch.force_software || launch.env_forced,
                env_forced: launch.env_forced,
                compositor: compositor_of(display@),
                ..blank_diagnostics()
            }),
            views(failures@) == failures_between(plan@, start_attempt as int, index as int),
            forall|j: int|
                start_attempt <= j < index ==> (#[trigger] plan@[j]) is Hardware && observed(
                    acquire,
                    launch@,
                    plan@[j],
                    None,
                ),
            probes_allowed(acquire, launch@, start_attempt as int),
        decreases plan.len() - index,
    {
        let attempt = plan[index];
        let ghost failed = views(failures@);
        let mut current = diagnostics.clone();
        current.restart();
        current.fallback_used = start_attempt > 0 || failures.len() > 0;
        let config = attempt.apply(launch, env, &mut current);
        if attempt.is_hardware() {
            let low_power = attempt.prefers_low_power(launch);
            let request = ProbeRequest::new(config.backends, low_power, config.force_fallback);
            let found = acquire(&*env, &request);
            match adapter_or_error(found) {
                Ok(info) => {
                    current.record_adapter(&info);
                    current.record_failures(&failures);
                    let selection = RendererSelection::new_wgpu(index, attempt.label(), current);
                    assert(chosen(
                        acquire,
                        launch@,
                        start_attempt as int,
                        index as int,
                        found,
                    ));
                    return Ok(selection);
                },
                Err(error) => {
                    let message = failure_message(attempt.label(), error.as_str());
                    failures.push(message);
                    let ghost target = failures_between(plan@, start_attempt as int, index + 1);
                    assert forall|k: int| 0 <= k < index - start_attempt implies target[k]
                        == failed[k] by {}
                },
            }
        } else {
            current.record_failures(&failures);
            let selection = RendererSelection::new_glow(index, attempt.label(), current);
            assert(chosen(
                acquire,
                launch@,
                start_attempt as int,
                index as int,
                None::<AdapterInfo>,
            ));
            return Ok(selection);
        }
        index += 1;
    }
    if failures.len() == 0 {
        Err(String::from_str("No compatible wgpu adapters found"))
    } else {
        Err(join(&failures, " -> "))
    }
}

} // verus!
