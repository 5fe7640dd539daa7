//! What holds of every negotiation.

use vstd::prelude::*;
use crate::renderer::adapter::{
    AdapterInfo,
    AdapterView,
    ProbeRequest,
    no_adapter_text,
    opt_adapter_view,
};
use crate::renderer::attempt::{Attempt, glow_software_attempt, plan_for};
use crate::renderer::negotiation::{
    chosen,
    failures_between,
    observed,
    probes_allowed,
    selection_of,
};
use crate::renderer::environment::{BackendEnv, BackendEnvView, Platform, forced_software};
use crate::renderer::launch::{LaunchView, flag_value_set, force_flag, has_flag, launch_from};
use crate::renderer::report::report_text;
use crate::renderer::diagnostics::DiagnosticsView;
use crate::renderer::selection::{
    HardwareAcceleration,
    HostRenderer,
    chain_separator,
    failure_text,
    glow_options,
};
use crate::text::{eq_ignoring_ascii_case, joined};

verus! {

/// A launch with the force variable set to `1`, or to `true` in any mix of
/// upper and lower case, forces software rendering and says that the
/// environment did; afterwards the software rasterizer is switched on in the
/// environment and low power is preferred, whatever the arguments were.
pub proof fn lemma_force_variable_forces_software(
    args: Seq<Seq<char>>,
    value: Seq<char>,
    env: BackendEnvView,
    platform: Platform,
)
    requires
        value == "1"@ || eq_ignoring_ascii_case(value, "true"@),
    ensures
        launch_from(args, Some(value), env, platform).force_software,
        launch_from(args, Some(value), env, platform).env_forced,
        forced_software(env).software_rasterizer == Some("1"@),
        forced_software(env).power_preference == Some("low_power"@),
        forced_software(env).backend == env.backend,
{
}

/// A launch with the force flag among its arguments forces software
/// rendering; it says that the environment did so only where the force
/// variable is set as well.
pub proof fn lemma_force_flag_forces_software(
    args: Seq<Seq<char>>,
    force_variable: Option<Seq<char>>,
    env: BackendEnvView,
    platform: Platform,
)
    requires
        has_flag(args, force_flag()),
    ensures
        launch_from(args, force_variable, env, platform).force_software,
        launch_from(args, force_variable, env, platform).env_forced == flag_value_set(
            force_variable,
        ),
        !launch_from(args, None, env, platform).env_forced,
{
}

/// A negotiation that starts at the last attempt of the plan asks nothing of
/// the hardware: whatever `acquire` is, it may start.
pub proof fn lemma_last_attempt_needs_no_probe<
    F: Fn(&BackendEnv, &ProbeRequest) -> Option<AdapterInfo>,
>(acquire: F, launch: LaunchView)
    ensures
        probes_allowed(acquire, launch, plan_for(launch.platform).len() - 1),
{
}

/// A negotiation that starts at the last attempt of the plan chooses that
/// attempt, the software-only one, without an adapter; its selection asks
/// the host for the CPU path and reports the `glow` backend in software.
pub proof fn lemma_last_attempt_is_chosen<F: Fn(&BackendEnv, &ProbeRequest) -> Option<AdapterInfo>>(
    acquire: F,
    launch: LaunchView,
    compositor: Option<Seq<char>>,
    index: int,
    found: Option<AdapterInfo>,
)
    requires
        chosen(acquire, launch, plan_for(launch.platform).len() - 1, index, found),
    ensures
        index == plan_for(launch.platform).len() - 1,
        found is None,
        plan_for(launch.platform)[index] == glow_software_attempt(),
        ({
            let selection = selection_of(launch, compositor, index, index, None);
            &&& selection.attempt == index
            &&& selection.attempt_label == "software glow"@
            &&& selection.options == glow_options()
            &&& selection.diagnostics.backend == "glow"@
            &&& selection.diagnostics.software_backend
            &&& selection.diagnostics.failure_reason is None
        }),
{
}

/// Two negotiations with the same launch configuration and the same start
/// choose the same attempt and yield the same selection, backend included,
/// provided that the graphics stack answers each attempt's request in one
/// way only. What either negotiation left in the environment has no say:
/// each attempt writes all of it anew.
pub proof fn lemma_detect_is_repeatable<F: Fn(&BackendEnv, &ProbeRequest) -> Option<AdapterInfo>>(
    acquire: F,
    launch: LaunchView,
    compositor: Option<Seq<char>>,
    start: int,
    first: int,
    first_found: Option<AdapterInfo>,
    second: int,
    second_found: Option<AdapterInfo>,
)
    requires
        chosen(acquire, launch, start, first, first_found),
        chosen(acquire, launch, start, second, second_found),
        forall|attempt: Attempt, a: Option<AdapterInfo>, b: Option<AdapterInfo>|
            observed(acquire, launch, attempt, a) && observed(acquire, launch, attempt, b)
                ==> opt_adapter_view(a) == opt_adapter_view(b),
    ensures
        first == second,
        selection_of(launch, compositor, start, first, opt_adapter_view(first_found))
            == selection_of(launch, compositor, start, second, opt_adapter_view(second_found)),
{
}

/// The environment of an attempt follows from the launch configuration and
/// the attempt alone: two launch configurations that agree on the values
/// from before the launch and on forcing software give an attempt the same
/// environment.
pub proof fn lemma_attempt_env_from_baseline(attempt: Attempt, a: LaunchView, b: LaunchView)
    requires
        a.original == b.original,
        a.force_software == b.force_software,
    ensures
        attempt.env_for(a) == attempt.env_for(b),
{
}

/// Once an attempt has failed, the selection reports a fallback, and its
/// failure reason holds the failures of all attempts before the chosen one,
/// in the order of the plan, each as its label, a colon and the error, with
/// an arrow between each two.
pub proof fn lemma_failures_are_chained(
    launch: LaunchView,
    compositor: Option<Seq<char>>,
    start: int,
    index: int,
    found: Option<AdapterView>,
)
    requires
        0 <= start < index < plan_for(launch.platform).len(),
    ensures
        ({
            let plan = plan_for(launch.platform);
            let report = selection_of(launch, compositor, start, index, found).diagnostics;
            &&& report.fallback_used
            &&& report.failure_reason == Some(
                joined(failures_between(plan, start, index), chain_separator()),
            )
            &&& failures_between(plan, start, index).len() == index - start
            &&& forall|k: int|
                0 <= k < index - start ==> #[trigger] failures_between(plan, start, index)[k]
                    == failure_text(plan[start + k].label_text(), no_adapter_text())
            &&& index == start + 2 ==> report.failure_reason == Some(
                failure_text(plan[start].label_text(), no_adapter_text()) + chain_separator()
                    + failure_text(plan[start + 1].label_text(), no_adapter_text()),
            )
        }),
{
    let plan = plan_for(launch.platform);
    let failures = failures_between(plan, start, index);
    if index == start + 2 {
        assert(joined(failures.drop_last(), chain_separator()) == failures[0]) by {
            reveal_with_fuel(joined, 2);
        }
    }
}

/// A negotiation that starts at the head of the plan and chooses its first
/// attempt reports no fallback and no failure.
pub proof fn lemma_first_choice_is_no_fallback(
    launch: LaunchView,
    compositor: Option<Seq<char>>,
    found: Option<AdapterView>,
)
    ensures
        !selection_of(launch, compositor, 0, 0, found).diagnostics.fallback_used,
        selection_of(launch, compositor, 0, 0, found).diagnostics.failure_reason is None,
{
}

/// A selection reports a fallback exactly when the chosen attempt is not the
/// first of the plan.
pub proof fn lemma_fallback_means_not_first(
    launch: LaunchView,
    compositor: Option<Seq<char>>,
    start: int,
    index: int,
    found: Option<AdapterView>,
)
    requires
        0 <= start <= index < plan_for(launch.platform).len(),
    ensures
        selection_of(launch, compositor, start, index, found).diagnostics.fallback_used == (index
            > 0),
{
}

/// A selection asks the host to prefer the hardware exactly when a hardware
/// attempt was chosen and its report does not say that rendering runs in
/// software; every other selection asks the host to leave the hardware
/// alone. The software-only attempt always reports software rendering.
pub proof fn lemma_host_options_follow_the_report(
    launch: LaunchView,
    compositor: Option<Seq<char>>,
    start: int,
    index: int,
    found: Option<AdapterView>,
)
    requires
        0 <= start <= index < plan_for(launch.platform).len(),
    ensures
        ({
            let attempt = plan_for(launch.platform)[index];
            let selection = selection_of(launch, compositor, start, index, found);
            &&& selection.options.hardware_acceleration == HardwareAcceleration::Preferred <==> (
            attempt is Hardware && !selection.diagnostics.software_backend)
            &&& selection.options.hardware_acceleration == HardwareAcceleration::Off <==> (
            attempt is SoftwareOnly || selection.diagnostics.software_backend)
            &&& selection.options.renderer == HostRenderer::Glow <==> attempt is SoftwareOnly
            &&& attempt is SoftwareOnly ==> selection.diagnostics.software_backend
        }),
{
}

/// Where the launch forces software, every attempt of the plan runs in
/// software, the system's own choice and the explicit families included;
/// so every selection reports software rendering and asks the host to leave
/// the hardware alone.
pub proof fn lemma_forced_software_marks_every_attempt(
    launch: LaunchView,
    compositor: Option<Seq<char>>,
    start: int,
    index: int,
    found: Option<AdapterView>,
)
    requires
        launch.force_software,
        0 <= start <= index < plan_for(launch.platform).len(),
    ensures
        plan_for(launch.platform)[index].software_required(launch),
        selection_of(launch, compositor, start, index, found).diagnostics.software_backend,
        selection_of(launch, compositor, start, index, found).diagnostics.forced_software,
        selection_of(launch, compositor, start, index, found).options.hardware_acceleration
            == HardwareAcceleration::Off,
{
}

/// Every report begins with the line that names the renderer.
pub proof fn lemma_report_begins_with_renderer(report: DiagnosticsView)
    ensures
        ("Renderer: "@ + report.backend + "\n"@).is_prefix_of(report_text(report)),
{
    let head = "Renderer: "@ + report.backend + "\n"@;
}

} // verus!
