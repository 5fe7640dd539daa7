//! The headless probe: a negotiation whose outcome is reported as text.

use vstd::prelude::*;
use vstd::string::StringExecFns;
use crate::renderer::adapter::{AdapterInfo, ProbeRequest, opt_adapter_view};
use crate::renderer::negotiation::{chosen, detect, probes_allowed, selection_of};
use crate::renderer::diagnostics::{DiagnosticsView, RendererDiagnostics, blank_diagnostics};
use crate::renderer::selection::RendererSelection;
use crate::text::opt_view;
use crate::renderer::environment::{BackendEnv, DisplayEnv, compositor_name, compositor_of};
use crate::renderer::launch::LaunchConfig;
use crate::renderer::attempt::plan_for;

verus! {

/// The report of a headless probe.
#[derive(Clone, Debug)]
pub struct HeadlessReport {
    pub diagnostics: RendererDiagnostics,
}

/// The line that shows `value` after `title`, or nothing where there is no
/// value.
pub open spec fn optional_line(title: Seq<char>, value: Option<Seq<char>>) -> Seq<char> {
    match value {
        Some(text) => title + text + "\n"@,
        None => Seq::empty(),
    }
}

/// The line `line` where `flag` is set, or nothing.
pub open spec fn flag_line(flag: bool, line: Seq<char>) -> Seq<char> {
    if flag {
        line
    } else {
        Seq::empty()
    }
}

/// The text of a report, line by line: the renderer always; then the
/// adapter, its kind and the compositor, each where known; then one line for
/// software rendering and one for a fallback, each where in use; then the
/// chained failures of earlier attempts where there are any.
pub open spec fn report_text(report: DiagnosticsView) -> Seq<char> {
    "Renderer: "@ + report.backend + "\n"@ + optional_line("Adapter: "@, report.adapter_name)
        + optional_line("Adapter Type: "@, report.adapter_type) + optional_line(
        "Compositor: "@,
        report.compositor,
    ) + flag_line(report.software_backend, "Software fallback active\n"@) + flag_line(
        report.fallback_used,
        "Fallback engaged\n"@,
    ) + optional_line("Previous error: "@, report.failure_reason)
}

/// Appends the line that shows `value` after `title`, if there is a value.
fn push_optional_line(text: &mut String, title: &str, value: &Option<String>)
    ensures
        final(text)@ == old(text)@ + optional_line(title@, opt_view(*value)),
{
    match value {
        Some(shown) => {
            text.append(title);
            text.append(shown.as_str());
            text.append("\n");
        },
        None => {},
    }
}

impl HeadlessReport {
    /// The report as text.
    pub fn to_text(&self) -> (text: String)
        ensures
            text@ == report_text(self.diagnostics@),
    {
        let mut text = String::from_str("Renderer: ");
        text.append(self.diagnostics.backend.as_str());
        text.append("\n");
        push_optional_line(&mut text, "Adapter: ", &self.diagnostics.adapter_name);
        push_optional_line(&mut text, "Adapter Type: ", &self.diagnostics.adapter_type);
        push_optional_line(&mut text, "Compositor: ", &self.diagnostics.compositor);
        if self.diagnostics.software_backend {
            text.append("Software fallback active\n");
        }
        if self.diagnostics.fallback_used {
            text.append("Fallback engaged\n");
        }
        push_optional_line(&mut text, "Previous error: ", &self.diagnostics.failure_reason);
        text
    }
}

/// The report of a negotiation's outcome: the report of the selection, or,
/// where the negotiation failed, a blank report that holds the error and the
/// compositor.
pub fn report_of(result: Result<RendererSelection, String>, display: &DisplayEnv) -> (report:
    HeadlessReport)
    ensures
        match result {
            Ok(selection) => report.diagnostics@ == selection.diagnostics@,
            Err(error) => report.diagnostics@ == (DiagnosticsView {
                failure_reason: Some(error@),
                compositor: compositor_of(display@),
                ..blank_diagnostics()
            }),
        },
{
    match result {
        Ok(selection) => HeadlessReport { diagnostics: selection.diagnostics },
        Err(error) => {
            let mut diagnostics = RendererDiagnostics::new();
            diagnostics.failure_reason = Some(error);
            diagnostics.compositor = compositor_name(display);
            HeadlessReport { diagnostics }
        },
    }
}

/// Negotiates the renderer from the head of the plan and reports the
/// outcome. The probe always has an outcome to report, since the plan ends
/// in an attempt that cannot fail.
pub fn run_headless_probe<F: Fn(&BackendEnv, &ProbeRequest) -> Option<AdapterInfo>>(
    launch: &LaunchConfig,
    display: &DisplayEnv,
    env: &mut BackendEnv,
    acquire: F,
) -> (report: HeadlessReport)
    requires
        probes_allowed(acquire, launch@, 0),
    ensures
        exists|index: int, found: Option<AdapterInfo>|
            {
                &&& chosen(acquire, launch@, 0, index, found)
                &&& report.diagnostics@ == selection_of(
                    launch@,
                    compositor_of(display@),
                    0,
                    index,
                    opt_adapter_view(found),
                ).diagnostics
                &&& final(env)@ == plan_for(launch.platform)[index].env_for(launch@)
            },
{
    let result = detect(launch, display, 0, env, acquire);
    proof {
        match &result {
            Ok(selection) => {
                let found = choose|found: Option<AdapterInfo>|
                    {
                        &&& chosen(acquire, launch@, 0, selection.attempt as int, found)
                        &&& selection@ == selection_of(
                            launch@,
                            compositor_of(display@),
                            0,
                            selection.attempt as int,
                            opt_adapter_view(found),
                        )
                    };
            },
            Err(_) => {},
        }
    }
    report_of(result, display)
}

} // verus!
