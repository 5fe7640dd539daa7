//! The outcome of a negotiation: the attempt that was chosen, what the
//! windowing host is asked for, and the report.

use vstd::prelude::*;
use vstd::string::StringExecFns;
use crate::renderer::adapter::{AdapterInfo, AdapterView, DeviceType};
use crate::renderer::diagnostics::{DiagnosticsView, RendererDiagnostics};
use crate::text::{join, joined, views};

verus! {

/// The renderer the windowing host is asked to run.
#[derive(Clone, Copy, Debug, PartialEq, Eq, Structural)]
pub enum HostRenderer {
    /// The GPU path.
    Wgpu,
    /// The CPU path.
    Glow,
}

/// How much the windowing host may lean on the hardware.
#[derive(Clone, Copy, Debug, PartialEq, Eq, Structural)]
pub enum HardwareAcceleration {
    /// Use the hardware where there is any.
    Preferred,
    /// Do not use the hardware.
    Off,
}

/// What the windowing host is handed.
#[derive(Clone, Copy, Debug, PartialEq, Eq, Structural)]
pub struct HostOptions {
    pub renderer: HostRenderer,
    pub hardware_acceleration: HardwareAcceleration,
}

/// The text between two failures of a chain.
pub open spec fn chain_separator() -> Seq<char> {
    " -> "@
}

/// The failure of the attempt labelled `label`: the label, a colon and a
/// space, and the error.
pub open spec fn failure_text(label: Seq<char>, error: Seq<char>) -> Seq<char> {
    label + ": "@ + error
}

/// The failure of the attempt labelled `label` with the error `error`.
pub fn failure_message(label: &str, error: &str) -> (message: String)
    ensures
        message@ == failure_text(label@, error@),
{
    let mut message = String::from_str(label);
    message.append(": ");
    message.append(error);
    message
}

/// The failures of earlier attempts as one text, in their order and with
/// [`chain_separator`] between them; none where nothing failed.
pub open spec fn chained(failures: Seq<Seq<char>>) -> Option<Seq<char>> {
    if failures.len() == 0 {
        None
    } else {
        Some(joined(failures, chain_separator()))
    }
}

/// The report of a hardware attempt that found the adapter `info`.
///
/// The backend, the adapter's name, its kind and its driver are those of
/// the adapter. An adapter of the CPU kind is accepted, and marks the report
/// as rendering in software.
pub open spec fn adapter_report(base: DiagnosticsView, info: AdapterView) -> DiagnosticsView {
    DiagnosticsView {
        backend: info.backend.name_text(),
        adapter_name: Some(info.name),
        adapter_type: Some(info.device_type.name_text()),
        backend_details: Some("Driver: "@ + info.driver),
        software_backend: base.software_backend || info.device_type == DeviceType::Cpu,
        ..base
    }
}

/// The report with the failures of earlier attempts chained into it. Where
/// nothing failed the report stays as it is.
pub open spec fn failure_report(base: DiagnosticsView, failures: Seq<Seq<char>>) -> DiagnosticsView {
    if failures.len() == 0 {
        base
    } else {
        DiagnosticsView { failure_reason: chained(failures), ..base }
    }
}

/// The report of the software-only attempt: the backend is `glow` on the
/// CPU, and the adapter keeps its name if it has one.
pub open spec fn glow_report(base: DiagnosticsView) -> DiagnosticsView {
    DiagnosticsView {
        backend: "glow"@,
        backend_details: Some("Software renderer (glow fallback)"@),
        adapter_type: Some("Cpu"@),
        adapter_name: match base.adapter_name {
            Some(name) => Some(name),
            None => Some("Software Renderer"@),
        },
        ..base
    }
}

/// What a hardware attempt asks of the host: the GPU path, with hardware
/// acceleration preferred unless the report says that rendering runs in
/// software.
pub open spec fn wgpu_options(software_backend: bool) -> HostOptions {
    HostOptions {
        renderer: HostRenderer::Wgpu,
        hardware_acceleration: if software_backend {
            HardwareAcceleration::Off
        } else {
            HardwareAcceleration::Preferred
        },
    }
}

/// What the software-only attempt asks of the host: the CPU path without
/// hardware acceleration.
pub open spec fn glow_options() -> HostOptions {
    HostOptions { renderer: HostRenderer::Glow, hardware_acceleration: HardwareAcceleration::Off }
}

impl RendererDiagnostics {
    /// Fills in what the adapter `info` says of itself.
    pub fn record_adapter(&mut self, info: &AdapterInfo)
        ensures
            final(self)@ == adapter_report(old(self)@, info@),
            final(self).started_at == old(self).started_at,
    {
        self.backend = String::from_str(info.backend.name());
        self.adapter_name = Some(info.name.clone());
        self.adapter_type = Some(String::from_str(info.device_type.name()));
        let mut details = String::from_str("Driver: ");
        details.append(info.driver.as_str());
        self.backend_details = Some(details);
        if info.device_type == DeviceType::Cpu {
            self.software_backend = true;
        }
    }

    /// Chains the failures of earlier attempts into the report.
    pub fn record_failures(&mut self, failures: &Vec<String>)
        ensures
            final(self)@ == failure_report(old(self)@, views(failures@)),
            final(self).started_at == old(self).started_at,
    {
        if failures.len() > 0 {
            self.failure_reason = Some(join(failures, " -> "));
        }
    }
}

/// The outcome of a negotiation.
#[derive(Clone, Debug)]
pub struct RendererSelection {
    /// Place of the chosen attempt in the plan.
    pub attempt: usize,
    /// Label of the chosen attempt.
    pub attempt_label: &'static str,
    /// What the windowing host is handed.
    pub options: HostOptions,
    /// The report.
    pub diagnostics: RendererDiagnostics,
}

/// Mathematical model of a [`RendererSelection`].
pub struct SelectionView {
    pub attempt: int,
    pub attempt_label: Seq<char>,
    pub options: HostOptions,
    pub diagnostics: DiagnosticsView,
}

impl View for RendererSelection {
    type V = SelectionView;

    open spec fn view(&self) -> SelectionView {
        SelectionView {
            attempt: self.attempt as int,
            attempt_label: self.attempt_label@,
            options: self.options,
            diagnostics: self.diagnostics@,
        }
    }
}

impl RendererSelection {
    /// The selection of a hardware attempt whose report is `diagnostics`.
    pub fn new_wgpu(
        attempt: usize,
        attempt_label: &'static str,
        diagnostics: RendererDiagnostics,
    ) -> (selection: RendererSelection)
        ensures
            selection@ == (SelectionView {
                attempt: attempt as int,
                attempt_label: attempt_label@,
                options: wgpu_options(diagnostics.software_backend),
                diagnostics: diagnostics@,
            }),
    {
        let hardware_acceleration = if diagnostics.software_backend {
            HardwareAcceleration::Off
        } else {
            HardwareAcceleration::Preferred
        };
        let options = HostOptions { renderer: HostRenderer::Wgpu, hardware_acceleration };
        RendererSelection { attempt, attempt_label, options, diagnostics }
    }

    /// The selection of the software-only attempt. Of `diagnostics` it keeps
    /// what does not name the backend or the adapter.
    pub fn new_glow(
        attempt: usize,
        attempt_label: &'static str,
        diagnostics: RendererDiagnostics,
    ) -> (selection: RendererSelection)
        ensures
            selection@ == (SelectionView {
                attempt: attempt as int,
                attempt_label: attempt_label@,
                options: glow_options(),
                diagnostics: glow_report(diagnostics@),
            }),
    {
        let mut diagnostics = diagnostics;
        diagnostics.backend = String::from_str("glow");
        diagnostics.backend_details = Some(String::from_str("Software renderer (glow fallback)"));
        diagnostics.adapter_type = Some(String::from_str("Cpu"));
        if diagnostics.adapter_name.is_none() {
            diagnostics.adapter_name = Some(String::from_str("Software Renderer"));
        }
        let options = HostOptions {
            renderer: HostRenderer::Glow,
            hardware_acceleration: HardwareAcceleration::Off,
        };
        RendererSelection { attempt, attempt_label, options, diagnostics }
    }
}

} // verus!
