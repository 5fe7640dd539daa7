//! The report that one negotiation accumulates.

use std::time::Instant;
use vstd::prelude::*;
use vstd::string::StringExecFns;
use crate::text::opt_view;

verus! {

#[verifier::external_type_specification]
#[verifier::external_body]
pub struct ExInstant(Instant);

/// Reads the monotonic clock with `std::time::Instant::now`. Nothing is
/// claimed of the instant that comes back.
#[verifier::external_body]
fn now() -> Instant {
    Instant::now()
}

/// What is known of the renderer: which backend and adapter were chosen,
/// whether software rendering or a fallback is in use, and why earlier
/// attempts failed.
#[derive(Debug)]
pub struct RendererDiagnostics {
    /// Software rendering was asked for at launch.
    pub forced_software: bool,
    /// The force variable was set in the environment.
    pub env_forced: bool,
    /// The chosen attempt was not the first one of the plan that was tried,
    /// or an attempt before it failed.
    pub fallback_used: bool,
    /// Rendering runs on the CPU.
    pub software_backend: bool,
    /// The display server in use, if one was recognised.
    pub compositor: Option<String>,
    /// Name of the backend.
    pub backend: String,
    /// Name of the adapter.
    pub adapter_name: Option<String>,
    /// Kind of device the adapter is.
    pub adapter_type: Option<String>,
    /// Further detail on the backend, such as the driver.
    pub backend_details: Option<String>,
    /// The failures of earlier attempts, chained in the order of the plan.
    pub failure_reason: Option<String>,
    /// When the attempt that this report belongs to began.
    pub started_at: Instant,
}

/// Mathematical model of a [`RendererDiagnostics`]: every field but the
/// instant at which the attempt began.
pub struct DiagnosticsView {
    pub forced_software: bool,
    pub env_forced: bool,
    pub fallback_used: bool,
    pub software_backend: bool,
    pub compositor: Option<Seq<char>>,
    pub backend: Seq<char>,
    pub adapter_name: Option<Seq<char>>,
    pub adapter_type: Option<Seq<char>>,
    pub backend_details: Option<Seq<char>>,
    pub failure_reason: Option<Seq<char>>,
}

impl View for RendererDiagnostics {
    type V = DiagnosticsView;

    open spec fn view(&self) -> DiagnosticsView {
        DiagnosticsView {
            forced_software: self.forced_software,
            env_forced: self.env_forced,
            fallback_used: self.fallback_used,
            software_backend: self.software_backend,
            compositor: opt_view(self.compositor),
            backend: self.backend@,
            adapter_name: opt_view(self.adapter_name),
            adapter_type: opt_view(self.adapter_type),
            backend_details: opt_view(self.backend_details),
            failure_reason: opt_view(self.failure_reason),
        }
    }
}

/// The report before anything is known: no flag is set, no optional field
/// is filled, and the backend is `wgpu`.
pub open spec fn blank_diagnostics() -> DiagnosticsView {
    DiagnosticsView {
        forced_software: false,
        env_forced: false,
        fallback_used: false,
        software_backend: false,
        compositor: None,
        backend: "wgpu"@,
        adapter_name: None,
        adapter_type: None,
        backend_details: None,
        failure_reason: None,
    }
}

impl Default for RendererDiagnostics {
    fn default() -> (diagnostics: RendererDiagnostics)
        ensures
            diagnostics@ == blank_diagnostics(),
    {
        RendererDiagnostics {
            forced_software: false,
            env_forced: false,
            fallback_used: false,
            software_backend: false,
            compositor: None,
            backend: String::from_str("wgpu"),
            adapter_name: None,
            adapter_type: None,
            backend_details: None,
            failure_reason: None,
            started_at: now(),
        }
    }
}

impl RendererDiagnostics {
    /// A blank report that begins now.
    pub fn new() -> (diagnostics: RendererDiagnostics)
        ensures
            diagnostics@ == blank_diagnostics(),
    {
        RendererDiagnostics::default()
    }

    /// Sets the beginning of the report to the present moment.
    pub fn restart(&mut self)
        ensures
            final(self)@ == old(self)@,
    {
        self.started_at = now();
    }
}

impl Clone for RendererDiagnostics {
    fn clone(&self) -> (copy: RendererDiagnostics)
        ensures
            copy@ == self@,
            copy.started_at == self.started_at,
    {
        RendererDiagnostics {
            forced_software: self.forced_software,
            env_forced: self.env_forced,
            fallback_used: self.fallback_used,
            software_backend: self.software_backend,
            compositor: self.compositor.clone(),
            backend: self.backend.clone(),
            adapter_name: self.adapter_name.clone(),
            adapter_type: self.adapter_type.clone(),
            backend_details: self.backend_details.clone(),
            failure_reason: self.failure_reason.clone(),
            started_at: self.started_at,
        }
    }
}

} // verus!
